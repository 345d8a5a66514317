use flow_designer::data::{ColumnInfo, ColumnKind, DataValue, TableInfo};
use flow_designer::plans::{
    append_rows, check_table_to_save, plan_append_csv, read_excel_path,
    plan_linear_regression, plan_missing_value_replacement, plan_normalizer_and_encoder,
    plan_save_csv_or_excel, plan_select_attributes, plan_train_test_split, read_csv_path, string_items,
    FillStrategy, NormalizationMethod, SaveFormat, SplitPlan,
};
use flow_designer::property::{PropertyMap, PropertyValue};

fn table(cols: &[(&str, ColumnKind)], height: usize) -> DataValue {
    DataValue::Table(TableInfo {
        columns: cols
            .iter()
            .map(|(n, k)| ColumnInfo { name: n.to_string(), kind: *k })
            .collect(),
        height,
    })
}

fn text(s: &str) -> PropertyValue {
    PropertyValue::String(s.to_string())
}

fn props(entries: Vec<(&str, PropertyValue)>) -> PropertyMap {
    let mut m = PropertyMap::new();
    for (k, v) in entries {
        m.insert(k.to_string(), v);
    }
    m
}

fn strategies(entries: Vec<(&str, &str)>) -> PropertyMap {
    let mut inner = PropertyMap::new();
    for (k, v) in entries {
        inner.insert(k.to_string(), text(v));
    }
    props(vec![("columns_with_missing_value", PropertyValue::Dict(inner))])
}

fn sample() -> DataValue {
    table(
        &[("age", ColumnKind::Numeric), ("city", ColumnKind::Text), ("grade", ColumnKind::Categorical)],
        4,
    )
}

#[test]
fn missing_values_are_planned_per_column() {
    let p = strategies(vec![("age", "Average"), ("city", "Forward Fill"), ("grade", "Unknown")]);
    let plan = plan_missing_value_replacement(&sample(), &p).unwrap();
    assert_eq!(plan.len(), 3);
    assert_eq!(plan[0].column, "age");
    assert!(matches!(plan[0].strategy, FillStrategy::Mean));
    assert_eq!(plan[1].column, "city");
    assert!(matches!(plan[1].strategy, FillStrategy::ForwardFill));
    match &plan[2].strategy {
        FillStrategy::Literal(s) => assert_eq!(s, "Unknown"),
        other => panic!("unexpected {:?}", other),
    }
}

#[test]
fn missing_value_strategies_max_min_backward() {
    let p = strategies(vec![("age", "Max")]);
    let plan = plan_missing_value_replacement(&sample(), &p).unwrap();
    assert!(matches!(plan[0].strategy, FillStrategy::Max));
    let p = strategies(vec![("age", "Min"), ("grade", "Backward Fill")]);
    let plan = plan_missing_value_replacement(&sample(), &p).unwrap();
    assert!(matches!(plan[0].strategy, FillStrategy::Min));
    assert!(matches!(plan[1].strategy, FillStrategy::BackwardFill));
    let p = strategies(vec![("age", "Mean")]);
    let plan = plan_missing_value_replacement(&sample(), &p).unwrap();
    assert!(matches!(plan[0].strategy, FillStrategy::Mean));
}

#[test]
fn null_and_empty_strategies_leave_the_column() {
    let p = strategies(vec![("age", "Null"), ("city", ""), ("grade", "Unknown")]);
    let plan = plan_missing_value_replacement(&sample(), &p).unwrap();
    assert_eq!(plan.len(), 1);
    assert_eq!(plan[0].column, "grade");
    match &plan[0].strategy {
        FillStrategy::Literal(s) => assert_eq!(s, "Unknown"),
        other => panic!("unexpected {:?}", other),
    }
}

#[test]
fn mode_fills_with_the_most_frequent_value_on_any_column() {
    let p = strategies(vec![("city", "Mode"), ("age", "Mode"), ("grade", "Mode")]);
    let plan = plan_missing_value_replacement(&sample(), &p).unwrap();
    assert_eq!(plan.len(), 3);
    assert!(plan.iter().all(|f| matches!(f.strategy, FillStrategy::Mode)));
    assert_eq!(plan[0].column, "city");
}

#[test]
fn non_text_strategy_entries_are_passed_over() {
    let mut inner = PropertyMap::new();
    inner.insert("age".to_string(), PropertyValue::Int(3));
    inner.insert("city".to_string(), text("Unknown"));
    let p = props(vec![("columns_with_missing_value", PropertyValue::Dict(inner))]);
    let plan = plan_missing_value_replacement(&sample(), &p).unwrap();
    assert_eq!(plan.len(), 1);
    assert_eq!(plan[0].column, "city");
}

#[test]
fn missing_value_errors() {
    let p = strategies(vec![("age", "Mean")]);
    assert_eq!(
        plan_missing_value_replacement(&DataValue::Empty, &p).unwrap_err(),
        "[Replace Missing Value] Input is not a Table"
    );
    assert_eq!(
        plan_missing_value_replacement(&sample(), &PropertyMap::new()).unwrap_err(),
        "[Replace Missing Value] Configuration property missing"
    );
    let p = strategies(vec![("height", "Mean")]);
    assert_eq!(
        plan_missing_value_replacement(&sample(), &p).unwrap_err(),
        "[Replace Missing Value] Column 'height' not found"
    );
    let p = strategies(vec![("city", "Max")]);
    assert_eq!(
        plan_missing_value_replacement(&sample(), &p).unwrap_err(),
        "[Replace Missing Value] Cannot use 'Max' on non-numeric column 'city'"
    );
}

#[test]
fn first_failing_entry_decides_the_error() {
    let p = strategies(vec![("age", "Mean"), ("nope", "Mean"), ("city", "Average")]);
    assert_eq!(
        plan_missing_value_replacement(&sample(), &p).unwrap_err(),
        "[Replace Missing Value] Column 'nope' not found"
    );
    let p = strategies(vec![("city", "Min"), ("nope", "Mean")]);
    assert_eq!(
        plan_missing_value_replacement(&sample(), &p).unwrap_err(),
        "[Replace Missing Value] Cannot use 'Min' on non-numeric column 'city'"
    );
}

#[test]
fn read_csv_path_takes_the_file_path() {
    let p = props(vec![("file_path", text("/data/in.csv"))]);
    assert_eq!(read_csv_path(&p).unwrap(), "/data/in.csv");
    let p = props(vec![("file_path", PropertyValue::Int(1))]);
    assert_eq!(read_csv_path(&p).unwrap_err(), "[Read CSV] Failed to read CSV file");
    assert_eq!(read_csv_path(&PropertyMap::new()).unwrap_err(), "[Read CSV] Failed to read CSV file");
}

#[test]
fn read_excel_path_takes_the_file_path() {
    let p = props(vec![("file_path", text("/data/in.xlsx"))]);
    assert_eq!(read_excel_path(&p).unwrap(), "/data/in.xlsx");
    let p = props(vec![("file_path", PropertyValue::Bool(true))]);
    assert_eq!(read_excel_path(&p).unwrap_err(), "[Read Excel] Failed to read Excel file");
    assert_eq!(read_excel_path(&PropertyMap::new()).unwrap_err(), "[Read Excel] Failed to read Excel file");
}

#[test]
fn append_plan_needs_a_table_and_a_path() {
    let p = props(vec![("another_csv_file_path", text("/data/more.csv"))]);
    assert_eq!(plan_append_csv(&sample(), &p).unwrap(), "/data/more.csv");
    assert_eq!(plan_append_csv(&DataValue::Empty, &p).unwrap_err(), "[Append CSV] Input is not a Table");
    assert_eq!(plan_append_csv(&sample(), &PropertyMap::new()).unwrap_err(), "[Append CSV] Failed to read CSV file");
}

fn info(cols: &[(&str, ColumnKind)], height: usize) -> TableInfo {
    match table(cols, height) {
        DataValue::Table(t) => t,
        _ => unreachable!(),
    }
}

#[test]
fn appended_rows_stack_below_the_input() {
    let a = info(&[("Names", ColumnKind::Text), ("Ages", ColumnKind::Numeric)], 2);
    let b = info(&[("Names", ColumnKind::Text), ("Ages", ColumnKind::Numeric)], 2);
    let t = append_rows(&a, &b).unwrap();
    assert_eq!(t.height, 4);
    assert_eq!(t.column_names(), vec!["Names".to_string(), "Ages".to_string()]);
    let swapped = info(&[("Ages", ColumnKind::Numeric), ("Names", ColumnKind::Text)], 1);
    assert_eq!(append_rows(&a, &swapped).unwrap_err(), "[Append CSV] The columns of the appended file do not match");
    let fewer = info(&[("Names", ColumnKind::Text)], 1);
    assert!(append_rows(&a, &fewer).is_err());
    let other_kind = info(&[("Names", ColumnKind::Text), ("Ages", ColumnKind::Text)], 1);
    assert!(append_rows(&a, &other_kind).is_err());
}

#[test]
fn save_plan_picks_the_extension() {
    let p = props(vec![("file_type", text("Csv")), ("file_path", text("/out")), ("file_name", text("result"))]);
    let plan = plan_save_csv_or_excel(&p).unwrap();
    assert_eq!(plan.format, SaveFormat::Csv);
    assert_eq!(plan.file_name, "result.csv");
    assert_eq!(plan.directory, "/out");
    assert_eq!(plan.file_type, "Csv");
    let p = props(vec![("file_type", text("Excel")), ("file_path", text("/out")), ("file_name", text("result"))]);
    let plan = plan_save_csv_or_excel(&p).unwrap();
    assert_eq!(plan.format, SaveFormat::Excel);
    assert_eq!(plan.file_name, "result.xlsx");
}

#[test]
fn save_plan_errors_in_order() {
    assert_eq!(
        plan_save_csv_or_excel(&PropertyMap::new()).unwrap_err(),
        "[Save to Csv or Excel] Invalid file type"
    );
    let p = props(vec![("file_type", text("Csv"))]);
    assert_eq!(plan_save_csv_or_excel(&p).unwrap_err(), "[Save to Csv or Excel] Invalid destination");
    let p = props(vec![("file_type", text("Csv")), ("file_path", text("/out"))]);
    assert_eq!(plan_save_csv_or_excel(&p).unwrap_err(), "[Save to Csv or Excel] Invalid file name");
    let p = props(vec![("file_type", text("Csv")), ("file_path", text("/out")), ("file_name", text(""))]);
    assert_eq!(plan_save_csv_or_excel(&p).unwrap_err(), "[Save to Csv or Excel] Invalid file name");
}

#[test]
fn only_a_table_can_be_saved() {
    assert!(check_table_to_save(&sample()).is_ok());
    assert_eq!(
        check_table_to_save(&DataValue::Csv("a,b".to_string())).unwrap_err(),
        "[Save to Csv or Excel] Failed to save to Csv"
    );
}

#[test]
fn select_attributes_keeps_text_items_in_order() {
    let list = vec![text("grade"), PropertyValue::Int(5), text("age")];
    assert_eq!(string_items(&list), vec!["grade".to_string(), "age".to_string()]);
    let p = props(vec![("selected_attributes", PropertyValue::List(list))]);
    assert_eq!(plan_select_attributes(&sample(), &p).unwrap(), vec!["grade".to_string(), "age".to_string()]);
    assert_eq!(
        plan_select_attributes(&DataValue::Empty, &p).unwrap_err(),
        "[Select Attributes] Input is not a Table"
    );
    assert_eq!(
        plan_select_attributes(&sample(), &PropertyMap::new()).unwrap_err(),
        "[Select Attributes] Configuration property missing"
    );
}

#[test]
fn normalizer_plan_by_column_kind() {
    let input = table(
        &[
            ("a", ColumnKind::Numeric),
            ("b", ColumnKind::Text),
            ("c", ColumnKind::Other),
            ("d", ColumnKind::Categorical),
            ("e", ColumnKind::Numeric),
        ],
        3,
    );
    let p = props(vec![("normalization_method", text("z-score"))]);
    let plan = plan_normalizer_and_encoder(&input, &p).unwrap();
    assert_eq!(plan.method, NormalizationMethod::ZScore);
    assert_eq!(plan.normalize_columns, vec!["a".to_string(), "e".to_string()]);
    assert_eq!(plan.encode_columns, vec!["b".to_string(), "d".to_string()]);

    let p = props(vec![
        ("normalization_method", text("min-max")),
        ("apply_normalization", PropertyValue::Bool(false)),
        ("apply_one_hot_encoding", PropertyValue::Bool(true)),
    ]);
    let plan = plan_normalizer_and_encoder(&input, &p).unwrap();
    assert_eq!(plan.method, NormalizationMethod::MinMax);
    assert!(plan.normalize_columns.is_empty());
    assert_eq!(plan.encode_columns.len(), 2);

    let p = props(vec![("apply_one_hot_encoding", PropertyValue::Bool(false))]);
    let plan = plan_normalizer_and_encoder(&input, &p).unwrap();
    assert_eq!(plan.method, NormalizationMethod::MinMax);
    assert_eq!(plan.normalize_columns.len(), 2);
    assert!(plan.encode_columns.is_empty());

    assert!(plan_normalizer_and_encoder(&DataValue::Empty, &p).is_none());
}

#[test]
fn split_plan_cases() {
    let p = props(vec![("train_set_percent", PropertyValue::Float(80.0f32.to_bits())), ("shuffle", PropertyValue::Bool(true))]);
    match plan_train_test_split(&sample(), &p).unwrap() {
        SplitPlan::Split { percent_bits, shuffle, total_rows } => {
            assert_eq!(f32::from_bits(percent_bits), 80.0);
            assert!(shuffle);
            assert_eq!(total_rows, 4);
        }
        other => panic!("unexpected {:?}", other),
    }
    let empty = table(&[("a", ColumnKind::Numeric)], 0);
    assert!(matches!(plan_train_test_split(&empty, &p).unwrap(), SplitPlan::Unchanged));
    assert_eq!(
        plan_train_test_split(&DataValue::Empty, &p).unwrap_err(),
        "[Train & Test split] Input is not a Table"
    );
    let only_pct = props(vec![("train_set_percent", PropertyValue::Float(0))]);
    assert_eq!(
        plan_train_test_split(&sample(), &only_pct).unwrap_err(),
        "[Train & Test split] shuffle property missing"
    );
    assert_eq!(
        plan_train_test_split(&sample(), &PropertyMap::new()).unwrap_err(),
        "[Train & Test split] train_set_percent property missing"
    );
}

#[test]
fn regression_target_is_cleaned_and_excluded() {
    let input = table(&[("price", ColumnKind::Numeric), ("size", ColumnKind::Numeric), ("rooms", ColumnKind::Numeric)], 5);
    let p = props(vec![("target", text("  \"price\"\r\n"))]);
    let plan = plan_linear_regression(&input, &p).unwrap();
    assert_eq!(plan.target, "price");
    assert_eq!(plan.features, vec!["size".to_string(), "rooms".to_string()]);
}

#[test]
fn regression_target_must_be_a_numeric_column() {
    let padded = table(&[(" price ", ColumnKind::Numeric), ("size", ColumnKind::Numeric)], 5);
    let p = props(vec![("target", text("price"))]);
    assert_eq!(plan_linear_regression(&padded, &p).unwrap_err(), "[LR] Target column 'price' not found");
    let text_target = table(&[("price", ColumnKind::Text), ("size", ColumnKind::Numeric)], 5);
    assert_eq!(plan_linear_regression(&text_target, &p).unwrap_err(), "[LR] Target column 'price' is not numeric");
}

#[test]
fn regression_errors() {
    let input = table(&[("price", ColumnKind::Numeric)], 5);
    let p = props(vec![("target", text("price"))]);
    assert_eq!(plan_linear_regression(&input, &p).unwrap_err(), "[LR] No valid feature columns found");
    assert_eq!(plan_linear_regression(&DataValue::Empty, &p).unwrap_err(), "[LR] Input is not a table");
    let blank = props(vec![("target", text(""))]);
    assert_eq!(plan_linear_regression(&input, &blank).unwrap_err(), "[LR] Target column not specified");
    assert_eq!(
        plan_linear_regression(&input, &PropertyMap::new()).unwrap_err(),
        "[LR] Target column not specified"
    );
}

#[test]
fn regression_features_are_numeric_columns_only() {
    let input = table(&[("name", ColumnKind::Text), ("x", ColumnKind::Numeric), ("y", ColumnKind::Numeric)], 3);
    let p = props(vec![("target", text("y"))]);
    let plan = plan_linear_regression(&input, &p).unwrap();
    assert_eq!(plan.target, "y");
    assert_eq!(plan.features, vec!["x".to_string()]);
    let only_text = table(&[("name", ColumnKind::Text), ("y", ColumnKind::Numeric)], 3);
    assert_eq!(plan_linear_regression(&only_text, &p).unwrap_err(), "[LR] No valid feature columns found");
}

#[test]
fn select_attributes_refuses_an_unknown_column() {
    let list = vec![text("age"), text("height"), text("weight")];
    let p = props(vec![("selected_attributes", PropertyValue::List(list))]);
    assert_eq!(
        plan_select_attributes(&sample(), &p).unwrap_err(),
        "[Select Attributes] Failed to select columns: column 'height' not found"
    );
}
