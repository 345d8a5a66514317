use flow_designer::canvas::{
    ConnectedCurves, HoverAction, HoveredCurve, OpBox, OpConnectButton, OpConnectButtonType, OpConnectionLine,
    OpLineConnectionState, TempCurveAction,
};
use flow_designer::catalog::{read_csv_operator, select_attributes_operator, OperatorInUseList};
use flow_designer::data::{DataValue, TableInfo};
use flow_designer::edits::missing_value_column_of;
use flow_designer::log::{ConsoleLog, LogType};
use flow_designer::operator::Operator;
use flow_designer::panels::{
    forget_deleted_operator, lowered_name_matches, operator_matches_search, ConsolePanelShowState, OperatorPanelShowState,
    PropertyPanelShowState, PropertyType, RightClickedOperatorBox,
};
use flow_designer::process::{record_save_result, ProcessFileState};

fn idle(s: &OpLineConnectionState) -> bool {
    s.output_button_entity.is_none()
        && s.output_button_type == OpConnectButtonType::Unset
        && s.input_button_entity.is_none()
        && s.input_button_type == OpConnectButtonType::Unset
        && !s.input_button_is_hovering
}

fn latest_text(log: &ConsoleLog) -> (char, String) {
    match log.latest_message() {
        Some(LogType::Normal(s)) => ('n', s[16..].to_string()),
        Some(LogType::Success(s)) => ('s', s[16..].to_string()),
        Some(LogType::Error(s)) => ('e', s[16..].to_string()),
        None => ('-', String::new()),
    }
}

#[test]
fn buttons_and_boxes() {
    let b = OpBox::new(42, "Read CSV");
    assert_eq!(b.id, 42);
    assert_eq!(b.name, "Read CSV");
    let i = OpConnectButton::new_as_input();
    assert!(!i.connected && i.button_type == OpConnectButtonType::Input);
    let o = OpConnectButton::new_as_output();
    assert!(!o.connected && o.button_type == OpConnectButtonType::Output);
    let d = OpConnectButton::default();
    assert!(!d.connected && d.button_type == OpConnectButtonType::Unset);
    assert_eq!(OpConnectButtonType::default(), OpConnectButtonType::Unset);
    let l = OpConnectionLine::new(Some(1), Some(2));
    assert_eq!(l.input_button_entity, Some(1));
    assert_eq!(l.output_button_entity, Some(2));
}

#[test]
fn drawing_a_connection() {
    let mut s = OpLineConnectionState::default();
    assert!(idle(&s));
    assert!(matches!(s.temp_curve_action(), TempCurveAction::Clear));
    // Hovering counts only while drawing.
    s.hover_input(true);
    assert!(!s.input_button_is_hovering);
    // Clicking an input with nothing drawn does nothing.
    assert_eq!(s.finish_at_input(9, OpConnectButtonType::Input), None);
    assert!(idle(&s));

    s.begin_at_output(7, OpConnectButtonType::Output);
    assert_eq!(s.output_button_entity, Some(7));
    assert!(matches!(s.temp_curve_action(), TempCurveAction::FollowFrom(7)));
    // Not over the input button yet: nothing happens.
    assert_eq!(s.finish_at_input(9, OpConnectButtonType::Input), None);
    assert_eq!(s.output_button_entity, Some(7));
    s.hover_input(true);
    assert!(s.input_button_is_hovering);
    assert_eq!(s.finish_at_input(9, OpConnectButtonType::Input), Some(7));
    assert!(idle(&s));
}

#[test]
fn curve_is_kept_once_an_input_is_set() {
    let s = OpLineConnectionState {
        output_button_entity: Some(3),
        output_button_type: OpConnectButtonType::Output,
        input_button_entity: Some(4),
        input_button_type: OpConnectButtonType::Input,
        input_button_is_hovering: false,
    };
    assert!(matches!(s.temp_curve_action(), TempCurveAction::Keep));
}

#[test]
fn left_click_away_cancels() {
    let mut s = OpLineConnectionState::default();
    s.begin_at_output(7, OpConnectButtonType::Output);
    assert!(!s.press_mouse(false, true));
    assert!(!s.press_mouse(true, false));
    assert_eq!(s.output_button_entity, Some(7));
    s.hover_input(true);
    assert!(!s.press_mouse(true, true));
    assert_eq!(s.output_button_entity, Some(7));
    s.hover_input(false);
    assert!(s.press_mouse(true, true));
    assert!(idle(&s));
    s.begin_at_output(8, OpConnectButtonType::Output);
    s.reset();
    assert!(idle(&s));
}

#[test]
fn connections_are_recorded_and_removed() {
    let mut curves = ConnectedCurves::new();
    assert!(curves.0.is_empty());
    let a = curves.connect(1, 2);
    let b = curves.connect(3, 4);
    assert_ne!(a, b);
    assert_eq!(curves.0.len(), 2);
    assert_eq!((curves.0[0].id, curves.0[0].out_entity, curves.0[0].in_entity), (a, 1, 2));
    assert_eq!((curves.0[1].id, curves.0[1].out_entity, curves.0[1].in_entity), (b, 3, 4));

    let mut hovered = HoveredCurve { id: Some(a), close_icon_entity: Some(50) };
    // Another entity was clicked: nothing happens.
    assert_eq!(curves.remove_hovered(&mut hovered, 51), None);
    assert_eq!(curves.0.len(), 2);
    assert_eq!(hovered.id, Some(a));
    assert_eq!(curves.remove_hovered(&mut hovered, 50), Some(50));
    assert_eq!(curves.0.len(), 1);
    assert_eq!(curves.0[0].id, b);
    assert!(hovered.id.is_none() && hovered.close_icon_entity.is_none());

    // No icon shown: nothing happens.
    let mut none = HoveredCurve::default();
    assert_eq!(curves.remove_hovered(&mut none, 50), None);
    // A hovered id that is gone: nothing happens.
    let mut stale = HoveredCurve { id: Some(a), close_icon_entity: Some(50) };
    assert_eq!(curves.remove_hovered(&mut stale, 50), None);
    assert_eq!(curves.0.len(), 1);
    assert_eq!(stale.close_icon_entity, Some(50));
}

#[test]
fn hover_icon_actions() {
    let mut h = HoveredCurve::default();
    assert!(matches!(h.hover_action(false), HoverAction::Nothing));
    assert!(matches!(h.hover_action(true), HoverAction::ShowIcon));
    assert!(h.close_icon_entity.is_none());
    h.id = Some(9);
    h.close_icon_entity = Some(77);
    assert!(matches!(h.hover_action(true), HoverAction::Nothing));
    assert_eq!(h.close_icon_entity, Some(77));
    assert!(matches!(h.hover_action(false), HoverAction::HideIcon(77)));
    assert!(h.id.is_none() && h.close_icon_entity.is_none());
    h.id = Some(1);
    h.reset();
    assert!(h.id.is_none());
}

#[test]
fn linking_operators() {
    let mut first = read_csv_operator();
    first.link_to(Some(12));
    assert_eq!(first.next_operator, Some(12));
    assert!(first.is_first_operator);

    let mut second = select_attributes_operator();
    second.input = DataValue::Table(TableInfo::empty());
    second.is_first_operator = true;
    second.link_to(None);
    assert!(second.next_operator.is_none());
    assert!(!second.is_first_operator);
}

#[test]
fn panel_toggles() {
    let mut op = OperatorPanelShowState::new();
    assert!(op.state());
    op.toggle();
    assert!(!op.state());
    let mut console = ConsolePanelShowState::new();
    assert!(console.state());
    console.toggle();
    console.toggle();
    assert!(console.state());

    let mut p = PropertyPanelShowState::new();
    assert!(!p.state());
    assert_eq!(p.property_type, PropertyType::Unset);
    assert_eq!(p.container_id(), None);
    p.toggle();
    assert!(p.state());
    p.hide_panel();
    assert!(!p.state());
    p.show();
    assert!(p.state());
}

#[test]
fn property_panel_opens_on_an_operator() {
    let mut p = PropertyPanelShowState::new();
    p.open_for(5, 6, "Read CSV");
    assert!(p.state());
    assert_eq!(p.op_id, Some(5));
    assert_eq!(p.op_entity, Some(6));
    assert_eq!(p.property_type, PropertyType::ReadCsv);
    assert_eq!(p.container_id(), Some("read-csv-property-container"));
    p.open_for(7, 8, "Replace missing value");
    assert_eq!(p.property_type, PropertyType::ReplaceMissingValue);
    assert_eq!(p.container_id(), Some("replace-missing-value-property-container"));
    p.open_for(9, 10, "Linear Regression");
    assert_eq!(p.property_type, PropertyType::Unset);
    assert_eq!(p.container_id(), None);
    p.reset();
    assert!(!p.state() && p.op_id.is_none() && p.op_entity.is_none());
}

#[test]
fn deleting_an_operator() {
    let a = read_csv_operator();
    let b = select_attributes_operator();
    let (ida, idb) = (a.id, b.id);
    let mut in_use = OperatorInUseList::new();
    in_use.0.push(a);
    in_use.0.push(b);
    let mut panel = PropertyPanelShowState::new();
    panel.open_for(ida, 1, "Read CSV");
    let mut right = RightClickedOperatorBox(Some(ida));
    forget_deleted_operator(ida, &mut panel, &mut right, &mut in_use);
    assert!(!panel.state());
    assert_eq!(panel.op_id, Some(ida));
    assert!(right.0.is_none());
    assert_eq!(in_use.0.len(), 1);
    assert_eq!(in_use.0[0].id, idb);
    forget_deleted_operator(12345, &mut panel, &mut right, &mut in_use);
    assert_eq!(in_use.0.len(), 1);
}

#[test]
fn operator_search_ignores_case() {
    assert!(operator_matches_search("Read CSV", "csv"));
    assert!(operator_matches_search("Read CSV", "READ"));
    assert!(!operator_matches_search("Read CSV", "excel"));
    assert!(operator_matches_search("Read CSV", ""));
    assert!(operator_matches_search("Read CSV", "   "));
    assert!(operator_matches_search("Linear Regression", "r r"));
}

#[test]
fn process_file_flow() {
    let mut state = ProcessFileState::default();
    assert!(!state.can_save());
    let mut log = ConsoleLog::default();
    assert!(!state.process_file_chosen(&mut log, None));
    assert_eq!(latest_text(&log), ('e', "Failed to open process file".to_string()));
    assert!(state.currernt_process_path.is_none());

    assert!(state.process_file_chosen(&mut log, Some("/p/flow.json".to_string())));
    assert_eq!(latest_text(&log), ('n', "Opening process".to_string()));
    assert_eq!(state.currernt_process_path.as_deref(), Some("/p/flow.json"));
    assert!(!state.can_save());

    let mut in_use = OperatorInUseList::new();
    let mut curves = ConnectedCurves::new();
    curves.connect(1, 2);
    let loaded = vec![read_csv_operator(), Operator::new_from(&select_attributes_operator())];
    state.process_file_loaded(&mut log, &mut in_use, &mut curves, Ok(loaded));
    assert_eq!(in_use.0.len(), 2);
    assert!(curves.0.is_empty());
    assert!(state.editing_existing_process);
    assert!(state.can_save());

    state.process_file_loaded(&mut log, &mut in_use, &mut curves, Err("bad json".to_string()));
    assert_eq!(latest_text(&log), ('e', "bad json".to_string()));
    assert!(!state.editing_existing_process);
    assert!(state.currernt_process_path.is_none());
    assert_eq!(in_use.0.len(), 2);
    state.reset();
    assert!(!state.file_needs_to_be_saved);
}

#[test]
fn save_results_are_logged() {
    let mut log = ConsoleLog::default();
    record_save_result(&mut log, true);
    assert_eq!(latest_text(&log), ('s', "Process has been saved".to_string()));
    record_save_result(&mut log, false);
    assert_eq!(latest_text(&log), ('e', "Failed to save new process".to_string()));
}

#[test]
fn removing_a_new_connection_undoes_it() {
    let mut curves = ConnectedCurves::new();
    let a = curves.connect(1, 2);
    let b = curves.connect(5, 6);
    let mut hovered = HoveredCurve { id: Some(b), close_icon_entity: Some(9) };
    assert_eq!(curves.remove_hovered(&mut hovered, 9), Some(9));
    assert_eq!(curves.0.len(), 1);
    assert_eq!((curves.0[0].id, curves.0[0].out_entity, curves.0[0].in_entity), (a, 1, 2));
}

#[test]
fn lowered_search_matching() {
    assert!(lowered_name_matches("read csv", "csv"));
    assert!(lowered_name_matches("read csv", "d c"));
    assert!(!lowered_name_matches("read csv", "CSV"));
    assert!(!lowered_name_matches("read csv", "excel"));
    assert!(lowered_name_matches("read csv", ""));
    assert!(lowered_name_matches("read csv", " \t"));
    assert!(!lowered_name_matches("", "a"));
}

#[test]
fn shown_icon_is_recorded() {
    let mut h = HoveredCurve::default();
    h.show_icon(33, 7);
    assert_eq!(h.close_icon_entity, Some(33));
    assert_eq!(h.id, Some(7));
    assert!(matches!(h.hover_action(false), HoverAction::HideIcon(33)));
}

#[test]
fn strategy_selector_column_keeps_dashes() {
    assert_eq!(missing_value_column_of("missing-value-replace-with-first-name"), Some("first-name".to_string()));
    assert_eq!(missing_value_column_of("missing-value-replace-with-age"), Some("age".to_string()));
    assert_eq!(missing_value_column_of("other-class"), None);
}

#[test]
fn failed_load_clears_the_unsaved_flag() {
    let mut state = ProcessFileState::default();
    state.file_needs_to_be_saved = true;
    state.editing_existing_process = true;
    let mut log = ConsoleLog::default();
    let mut in_use = OperatorInUseList::new();
    let mut curves = ConnectedCurves::new();
    state.process_file_loaded(&mut log, &mut in_use, &mut curves, Err("oops".to_string()));
    assert!(!state.file_needs_to_be_saved);
    let mut state = ProcessFileState::default();
    state.file_needs_to_be_saved = true;
    state.process_file_loaded(&mut log, &mut in_use, &mut curves, Ok(Vec::new()));
    assert!(state.file_needs_to_be_saved);
}
