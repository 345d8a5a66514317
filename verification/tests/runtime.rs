use flow_designer::data::{ColumnInfo, ColumnKind, DataValue, TableInfo};
use flow_designer::log::{
    create_log_with_timestamp, log_error, log_normal, log_success, stamp_log_line, ConsoleLog, LogType,
};
use flow_designer::run::{
    handle_task_event, DesignPageRootEntity, ExecutionAction, PreReadCsvOrExcelContent, ResultPageRootEntity,
    TaskChannelEvent, TaskPoll, TestSet, UiState, ViewingTab,
};

fn is_clock(t: &str) -> bool {
    let b = t.as_bytes();
    b.len() == 8
        && b[2] == b':'
        && b[5] == b':'
        && b.iter().enumerate().all(|(i, c)| i == 2 || i == 5 || c.is_ascii_digit())
}

fn stamped_text(s: &str, msg: &str) -> bool {
    s.starts_with("[LOG][") && is_clock(&s[6..14]) && &s[14..16] == "] " && &s[16..] == msg
}

fn one_table() -> DataValue {
    DataValue::Table(TableInfo {
        columns: vec![ColumnInfo { name: "x".to_string(), kind: ColumnKind::Numeric }],
        height: 2,
    })
}

fn current_session(log: &ConsoleLog) -> &Vec<LogType> {
    log.messages.get(&log.last_key_count).unwrap()
}

#[test]
fn log_lines_are_stamped() {
    let s = create_log_with_timestamp("hello");
    assert_eq!(s.len(), 16 + 5);
    assert!(stamped_text(&s, "hello"));
    match log_normal("a") {
        LogType::Normal(s) => assert!(stamped_text(&s, "a")),
        other => panic!("unexpected {:?}", other),
    }
    match log_success("b") {
        LogType::Success(s) => assert!(stamped_text(&s, "b")),
        other => panic!("unexpected {:?}", other),
    }
    match log_error("c") {
        LogType::Error(s) => assert!(stamped_text(&s, "c")),
        other => panic!("unexpected {:?}", other),
    }
}

#[test]
fn console_starts_with_one_session() {
    let log = ConsoleLog::default();
    assert_eq!(log.last_key_count, 1);
    assert_eq!(log.messages.len(), 1);
    let first = current_session(&log);
    assert_eq!(first.len(), 1);
    match &first[0] {
        LogType::Normal(s) => {
            assert!(s.starts_with('['));
            assert!(is_clock(&s[1..9]));
            assert_eq!(&s[9..], "] Application started");
        }
        other => panic!("unexpected {:?}", other),
    }
}

#[test]
fn messages_go_to_the_current_session() {
    let mut log = ConsoleLog::default();
    log.new_session();
    assert_eq!(log.last_key_count, 2);
    assert!(log.latest_message().is_none());
    log.new_message(LogType::Normal("one".to_string()));
    log.new_message(LogType::Error("two".to_string()));
    assert_eq!(current_session(&log).len(), 2);
    assert_eq!(log.messages.get(&1).unwrap().len(), 1);
    match log.latest_message() {
        Some(LogType::Error(s)) => assert_eq!(s, "two"),
        other => panic!("unexpected {:?}", other),
    }
}

#[test]
fn message_without_session_changes_nothing() {
    let mut log = ConsoleLog { messages: std::collections::HashMap::new(), last_key_count: 7 };
    log.new_message(LogType::Normal("lost".to_string()));
    assert!(log.messages.is_empty());
    assert!(log.latest_message().is_none());
}

#[test]
fn run_starts_at_the_first_chain_start() {
    let mut ui = UiState::default();
    let mut log = ConsoleLog::default();
    let stopped = ui.on_run_btn_clicked(&mut log, &vec![(10, false), (11, true), (12, true)]);
    assert!(stopped.is_none());
    assert!(ui.is_running);
    assert_eq!(ui.executing_operator, Some(11));
    assert_eq!(log.last_key_count, 2);
    let session = current_session(&log);
    assert_eq!(session.len(), 1);
    match &session[0] {
        LogType::Success(s) => assert!(stamped_text(s, "Started process")),
        other => panic!("unexpected {:?}", other),
    }
    let style = ui.run_button_style();
    assert_eq!(style.text, "Stop");
    assert_eq!(style.class, "is-danger");
}

#[test]
fn run_without_chain_says_so() {
    let mut ui = UiState::default();
    let mut log = ConsoleLog::default();
    ui.handle_start_running_process(&mut log, &vec![(10, false)]);
    assert!(!ui.is_running);
    assert!(ui.executing_operator.is_none());
    assert_eq!(log.last_key_count, 1);
    match log.latest_message() {
        Some(LogType::Error(s)) => assert!(stamped_text(s, "You need connected operators to start the process")),
        other => panic!("unexpected {:?}", other),
    }
    let style = ui.run_button_style();
    assert_eq!(style.text, "Run");
    assert_eq!(style.class, "is-success");
}

#[test]
fn pressing_run_again_stops() {
    let mut ui = UiState::default();
    let mut log = ConsoleLog::default();
    ui.on_run_btn_clicked(&mut log, &vec![(5, true)]);
    let stopped = ui.on_run_btn_clicked(&mut log, &vec![(5, true)]);
    assert_eq!(stopped, Some(5));
    assert!(!ui.is_running);
    assert!(ui.executing_operator.is_none());
    match log.latest_message() {
        Some(LogType::Error(s)) => assert!(stamped_text(s, "Stopped process")),
        other => panic!("unexpected {:?}", other),
    }
}

#[test]
fn run_loop_steps() {
    let mut ui = UiState::default();
    let mut log = ConsoleLog::default();
    assert!(matches!(ui.step_execution(&mut log, TaskPoll::NoTask, None), ExecutionAction::Idle));

    ui.handle_start_running_process(&mut log, &vec![(1, true)]);
    assert!(matches!(ui.step_execution(&mut log, TaskPoll::NoTask, Some(2)), ExecutionAction::SpawnTask));
    assert!(matches!(ui.step_execution(&mut log, TaskPoll::Pending, Some(2)), ExecutionAction::Wait));
    assert_eq!(ui.executing_operator, Some(1));

    match ui.step_execution(&mut log, TaskPoll::Finished(one_table()), Some(2)) {
        ExecutionAction::Advance { next, pass_on: Some(DataValue::Table(t)) } => {
            assert_eq!(next, 2);
            assert_eq!(t.height, 2);
        }
        other => panic!("unexpected {:?}", other),
    }
    assert_eq!(ui.executing_operator, Some(2));
    assert!(ui.is_running);

    match ui.step_execution(&mut log, TaskPoll::Finished(DataValue::Empty), Some(3)) {
        ExecutionAction::Advance { next: 3, pass_on: None } => {}
        other => panic!("unexpected {:?}", other),
    }

    let before = current_session(&log).len();
    assert!(matches!(
        ui.step_execution(&mut log, TaskPoll::Finished(DataValue::Model), None),
        ExecutionAction::Finished
    ));
    assert!(!ui.is_running);
    assert!(ui.executing_operator.is_none());
    assert_eq!(current_session(&log).len(), before + 1);
    match log.latest_message() {
        Some(LogType::Success(s)) => assert!(stamped_text(s, "Finished process")),
        other => panic!("unexpected {:?}", other),
    }
}

#[test]
fn failed_task_stops_the_run() {
    let mut ui = UiState::default();
    let mut log = ConsoleLog::default();
    ui.handle_start_running_process(&mut log, &vec![(1, true)]);
    let before = current_session(&log).len();
    assert!(matches!(
        ui.step_execution(&mut log, TaskPoll::Finished(DataValue::Error), Some(2)),
        ExecutionAction::Stopped
    ));
    assert!(!ui.is_running);
    assert!(ui.executing_operator.is_none());
    assert_eq!(current_session(&log).len(), before);
}

#[test]
fn tabs_follow_the_viewed_tab() {
    let mut ui = UiState::default();
    assert_eq!(ui.viewing_tab, ViewingTab::Design);
    let l = ui.tab_layout();
    assert!(l.design_shown);
    assert_eq!(l.design_class, "is-primary-dark");
    assert_eq!(l.result_class, "is-light");
    ui.viewing_tab = ViewingTab::Result;
    let l = ui.tab_layout();
    assert!(!l.design_shown);
    assert_eq!(l.design_class, "is-light");
    assert_eq!(l.result_class, "is-primary-dark");
}

#[test]
fn task_events() {
    let mut log = ConsoleLog::default();
    let mut test_set = TestSet::default();
    assert!(test_set.0.is_none());
    handle_task_event(TaskChannelEvent::LogMessage(LogType::Normal("hi".to_string())), &mut log, &mut test_set);
    match log.latest_message() {
        Some(LogType::Normal(s)) => assert_eq!(s, "hi"),
        other => panic!("unexpected {:?}", other),
    }
    handle_task_event(TaskChannelEvent::SetTestData(DataValue::Empty), &mut log, &mut test_set);
    assert!(test_set.0.is_none());
    handle_task_event(TaskChannelEvent::SetTestData(one_table()), &mut log, &mut test_set);
    assert!(matches!(test_set.0, Some(DataValue::Table(_))));
    handle_task_event(TaskChannelEvent::Empty, &mut log, &mut test_set);
    handle_task_event(TaskChannelEvent::UpdatePreReadContentAfterSelectAttributes(DataValue::Empty), &mut log, &mut test_set);
    assert!(matches!(test_set.0, Some(DataValue::Table(_))));
    assert_eq!(current_session(&log).len(), 2);
}

#[test]
fn pre_read_content_keeps_tables_only() {
    let mut c = PreReadCsvOrExcelContent::default();
    assert!(matches!(c.get(), DataValue::Empty));
    assert!(!c.accept(DataValue::Error));
    assert!(matches!(c.get(), DataValue::Empty));
    assert!(c.accept(one_table()));
    assert!(matches!(c.get(), DataValue::Table(_)));
    assert!(!c.accept(DataValue::Csv("x".to_string())));
    assert!(matches!(c.get(), DataValue::Table(_)));
}

#[test]
fn page_roots() {
    assert_eq!(*DesignPageRootEntity(Some(4)).get(), Some(4));
    assert_eq!(*ResultPageRootEntity(None).get(), None);
}

#[test]
fn log_line_for_a_given_time() {
    assert_eq!(stamp_log_line("09:05:01", "Started process"), "[LOG][09:05:01] Started process");
    assert_eq!(stamp_log_line("23:59:59", ""), "[LOG][23:59:59] ");
}

#[test]
fn console_started_at_a_given_time() {
    let log = ConsoleLog::started_at("12:00:00");
    assert_eq!(log.last_key_count, 1);
    assert_eq!(log.messages.len(), 1);
    match log.latest_message() {
        Some(LogType::Normal(s)) => assert_eq!(s, "[12:00:00] Application started"),
        other => panic!("unexpected {:?}", other),
    }
}

#[test]
fn run_button_logs_start_and_stop() {
    let mut ui = UiState::default();
    let mut log = ConsoleLog::default();
    ui.on_run_btn_clicked(&mut log, &vec![(4, true)]);
    match log.latest_message() {
        Some(LogType::Success(s)) => assert!(stamped_text(s, "Started process")),
        other => panic!("unexpected {:?}", other),
    }
    ui.on_run_btn_clicked(&mut log, &vec![(4, true)]);
    match log.latest_message() {
        Some(LogType::Error(s)) => assert!(stamped_text(s, "Stopped process")),
        other => panic!("unexpected {:?}", other),
    }
    let mut idle = UiState::default();
    let mut log2 = ConsoleLog::default();
    idle.on_run_btn_clicked(&mut log2, &vec![(4, false)]);
    match log2.latest_message() {
        Some(LogType::Error(s)) => assert!(stamped_text(s, "You need connected operators to start the process")),
        other => panic!("unexpected {:?}", other),
    }
}
