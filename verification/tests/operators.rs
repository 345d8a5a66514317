use flow_designer::catalog::{
    append_csv_operator, linear_regression_operator, normalizer_and_encoder_operator, read_csv_operator,
    read_excel_operator, replace_missing_value_operator, save_csv_or_excel_operator,
    select_attributes_operator, train_test_split_operator, OperatorInUseList, OperatorList,
};
use flow_designer::data::DataValue;
use flow_designer::operator::{Operator, OperatorCategory, OperatorKind};
use flow_designer::property::{PropertyMap, PropertyValue};

fn text_of(op: &Operator, key: &str) -> Option<String> {
    match op.properties.get(key) {
        Some(PropertyValue::String(s)) => Some(s.clone()),
        _ => None,
    }
}

fn list_of(op: &Operator, key: &str) -> Vec<String> {
    match op.properties.get(key) {
        Some(PropertyValue::List(items)) => items
            .iter()
            .map(|v| match v {
                PropertyValue::String(s) => s.clone(),
                other => panic!("unexpected {:?}", other),
            })
            .collect(),
        other => panic!("unexpected {:?}", other),
    }
}

#[test]
fn read_csv_operator_defaults() {
    let op = read_csv_operator();
    assert_eq!(op.name, "Read CSV");
    assert_eq!(op.kind, OperatorKind::ReadCSV);
    assert_eq!(op.category, OperatorCategory::IO);
    assert!(matches!(op.input, DataValue::Empty));
    match &op.output {
        DataValue::Table(t) => {
            assert_eq!(t.columns.len(), 0);
            assert_eq!(t.height, 0);
        }
        other => panic!("unexpected {:?}", other),
    }
    assert_eq!(text_of(&op, "file_path"), Some(String::new()));
    assert_eq!(op.properties.len(), 1);
    assert!(op.entity.is_none() && op.next_operator.is_none() && op.next_operator_id.is_none());
    assert!(!op.is_first_operator);
    assert!(!op.has_input_port());
}

#[test]
fn built_in_operators_have_their_properties() {
    let save = save_csv_or_excel_operator();
    assert_eq!(save.name, "Save to CSV or Excel");
    assert!(matches!(save.output, DataValue::Empty));
    assert!(save.has_input_port());
    assert_eq!(save.properties.key_at(0), "file_path");
    assert_eq!(save.properties.key_at(1), "file_name");
    assert_eq!(save.properties.key_at(2), "file_type");

    let norm = normalizer_and_encoder_operator();
    assert_eq!(text_of(&norm, "normalization_method"), Some("min-max".to_string()));
    assert!(matches!(norm.properties.get("apply_normalization"), Some(PropertyValue::Bool(true))));
    assert!(matches!(norm.properties.get("apply_one_hot_encoding"), Some(PropertyValue::Bool(true))));

    let split = train_test_split_operator();
    match split.properties.get("train_set_percent") {
        Some(PropertyValue::Float(bits)) => assert_eq!(f32::from_bits(*bits), 80.0),
        other => panic!("unexpected {:?}", other),
    }
    assert!(matches!(split.properties.get("shuffle"), Some(PropertyValue::Bool(true))));

    assert_eq!(text_of(&linear_regression_operator(), "target"), Some(String::new()));
    assert_eq!(text_of(&append_csv_operator(), "another_csv_file_path"), Some(String::new()));
    assert_eq!(read_excel_operator().kind, OperatorKind::ReadExcel);
    assert!(list_of(&select_attributes_operator(), "selected_attributes").is_empty());
    match replace_missing_value_operator().properties.get("columns_with_missing_value") {
        Some(PropertyValue::Dict(m)) => assert_eq!(m.len(), 0),
        other => panic!("unexpected {:?}", other),
    }
}

#[test]
fn default_operator_list_order() {
    let list = OperatorList::new();
    let names: Vec<&str> = list.0.iter().map(|o| o.name.as_str()).collect();
    assert_eq!(
        names,
        vec![
            "Read CSV",
            "Append CSV",
            "Select Attributes",
            "Save to CSV or Excel",
            "Replace missing value",
            "Normalizer & Encoder",
            "Train & Test split",
            "Linear Regression"
        ]
    );
}

#[test]
fn new_operators_get_random_version_4_ids() {
    let a = read_csv_operator();
    let b = read_csv_operator();
    assert_ne!(a.id, b.id);
    assert_eq!((a.id >> 76) & 0xf, 4);
    assert_eq!((a.id >> 62) & 0x3, 2);
}

#[test]
fn new_from_keeps_everything_but_the_id() {
    let mut op = select_attributes_operator();
    op.select_all_attributes(&vec!["a".to_string(), "b".to_string()]);
    op.entity = Some(7);
    op.next_operator = Some(9);
    let copy = Operator::new_from(&op);
    assert_ne!(copy.id, op.id);
    assert_eq!(copy.name, op.name);
    assert_eq!(copy.kind, op.kind);
    assert_eq!(copy.entity, Some(7));
    assert_eq!(copy.next_operator, Some(9));
    assert_eq!(list_of(&copy, "selected_attributes"), vec!["a", "b"]);
}

#[test]
fn operator_new_is_unplaced_and_unchained() {
    let op = Operator::new("X", OperatorKind::AppendCSV, DataValue::Csv("a,b".to_string()), DataValue::Model, OperatorCategory::DeepLearning, PropertyMap::new());
    assert_eq!(op.name, "X");
    assert!(matches!(op.input, DataValue::Csv(ref s) if s == "a,b"));
    assert!(matches!(op.output, DataValue::Model));
    assert!(op.entity.is_none() && op.next_operator.is_none());
    assert!(!op.is_first_operator);
}

#[test]
fn checking_an_attribute_adds_it_once() {
    let mut op = select_attributes_operator();
    op.select_attribute(&"age".to_string());
    op.select_attribute(&"name".to_string());
    op.select_attribute(&"age".to_string());
    assert_eq!(list_of(&op, "selected_attributes"), vec!["age", "name"]);
    op.deselect_attribute(&"age".to_string());
    assert_eq!(list_of(&op, "selected_attributes"), vec!["name"]);
    op.deselect_attribute(&"missing".to_string());
    assert_eq!(list_of(&op, "selected_attributes"), vec!["name"]);
}

#[test]
fn attribute_boxes_only_touch_select_attributes() {
    let mut op = linear_regression_operator();
    op.select_attribute(&"age".to_string());
    assert!(op.properties.get("selected_attributes").is_none());
    let mut sel = select_attributes_operator();
    sel.properties.insert("selected_attributes".to_string(), PropertyValue::Int(3));
    sel.select_attribute(&"age".to_string());
    assert!(matches!(sel.properties.get("selected_attributes"), Some(PropertyValue::Int(3))));
}

#[test]
fn selecting_all_attributes_replaces_the_list() {
    let mut op = select_attributes_operator();
    op.select_attribute(&"old".to_string());
    op.select_all_attributes(&vec!["x".to_string(), "y".to_string()]);
    assert_eq!(list_of(&op, "selected_attributes"), vec!["x", "y"]);
    let mut other = read_csv_operator();
    other.select_all_attributes(&vec!["x".to_string()]);
    assert!(other.properties.get("selected_attributes").is_none());
}

#[test]
fn missing_value_strategy_is_recorded() {
    let mut op = replace_missing_value_operator();
    assert!(op.set_missing_value_strategy(&"age".to_string(), &"Mean".to_string()));
    assert!(op.set_missing_value_strategy(&"age".to_string(), &"Max".to_string()));
    match op.properties.get("columns_with_missing_value") {
        Some(PropertyValue::Dict(m)) => {
            assert_eq!(m.len(), 1);
            assert!(matches!(m.get("age"), Some(PropertyValue::String(s)) if s == "Max"));
        }
        other => panic!("unexpected {:?}", other),
    }
    let mut other = read_csv_operator();
    assert!(other.set_missing_value_strategy(&"age".to_string(), &"Mean".to_string()));
    assert_eq!(other.properties.len(), 1);
    let mut bare = replace_missing_value_operator();
    bare.properties.remove("columns_with_missing_value");
    assert!(!bare.set_missing_value_strategy(&"age".to_string(), &"Mean".to_string()));
}

#[test]
fn dirty_columns_get_empty_strategies() {
    let mut op = replace_missing_value_operator();
    op.set_missing_value_strategy(&"old".to_string(), &"Min".to_string());
    op.reset_missing_value_columns(&vec!["a".to_string(), "b".to_string(), "a".to_string()]);
    match op.properties.get("columns_with_missing_value") {
        Some(PropertyValue::Dict(m)) => {
            assert_eq!(m.len(), 2);
            assert_eq!(m.key_at(0), "a");
            assert_eq!(m.key_at(1), "b");
            assert!(m.get("old").is_none());
            assert!(matches!(m.get("a"), Some(PropertyValue::String(s)) if s.is_empty()));
        }
        other => panic!("unexpected {:?}", other),
    }
}

#[test]
fn blank_target_is_ignored() {
    let mut op = linear_regression_operator();
    op.set_regression_target(&"  ".to_string());
    assert_eq!(text_of(&op, "target"), Some(String::new()));
    op.set_regression_target(&"price".to_string());
    assert_eq!(text_of(&op, "target"), Some("price".to_string()));
    let mut csv = read_csv_operator();
    csv.set_regression_target(&"price".to_string());
    assert!(csv.properties.get("target").is_none());
}

#[test]
fn deleting_removes_the_first_operator_with_the_id() {
    let a = read_csv_operator();
    let b = append_csv_operator();
    let id_a = a.id;
    let mut list = OperatorInUseList::new();
    list.0.push(a);
    list.0.push(b);
    let mut dup = Operator::new_from(&list.0[0]);
    dup.id = id_a;
    dup.name = "dup".to_string();
    list.0.push(dup);
    list.remove_by_id(id_a);
    assert_eq!(list.0.len(), 2);
    assert_eq!(list.0[0].name, "Append CSV");
    assert_eq!(list.0[1].name, "dup");
    list.remove_by_id(12345);
    assert_eq!(list.0.len(), 2);
}
