use flow_designer::property::{copy_value, PropertyMap, PropertyValue};

fn text(s: &str) -> PropertyValue {
    PropertyValue::String(s.to_string())
}

#[test]
fn insert_then_get_reads_back() {
    let mut m = PropertyMap::new();
    assert!(m.insert("file_path".to_string(), text("/tmp/a.csv")).is_none());
    match m.get("file_path") {
        Some(PropertyValue::String(s)) => assert_eq!(s, "/tmp/a.csv"),
        other => panic!("unexpected {:?}", other),
    }
    assert!(m.get("file_name").is_none());
    assert!(m.contains_key("file_path"));
    assert!(!m.contains_key("file_name"));
}

#[test]
fn insert_replaces_in_place() {
    let mut m = PropertyMap::new();
    m.insert("a".to_string(), PropertyValue::Int(1));
    m.insert("b".to_string(), PropertyValue::Int(2));
    let old = m.insert("a".to_string(), PropertyValue::Int(3));
    assert!(matches!(old, Some(PropertyValue::Int(1))));
    assert_eq!(m.len(), 2);
    assert_eq!(m.key_at(0), "a");
    assert!(matches!(m.value_at(0), PropertyValue::Int(3)));
    assert_eq!(m.key_at(1), "b");
}

#[test]
fn remove_takes_the_entry_out() {
    let mut m = PropertyMap::new();
    m.insert("a".to_string(), PropertyValue::Bool(true));
    m.insert("b".to_string(), PropertyValue::Bool(false));
    m.insert("c".to_string(), PropertyValue::Empty);
    assert!(matches!(m.remove("b"), Some(PropertyValue::Bool(false))));
    assert!(m.remove("b").is_none());
    assert_eq!(m.len(), 2);
    assert_eq!(m.key_at(0), "a");
    assert_eq!(m.key_at(1), "c");
}

#[test]
fn copies_are_deep() {
    let mut inner = PropertyMap::new();
    inner.insert("age".to_string(), text("Mean"));
    let v = PropertyValue::List(vec![text("x"), PropertyValue::Dict(inner), PropertyValue::Float(0x42a0_0000)]);
    let c = copy_value(&v);
    match c {
        PropertyValue::List(items) => {
            assert_eq!(items.len(), 3);
            assert!(matches!(&items[0], PropertyValue::String(s) if s == "x"));
            match &items[1] {
                PropertyValue::Dict(m) => assert!(matches!(m.get("age"), Some(PropertyValue::String(s)) if s == "Mean")),
                other => panic!("unexpected {:?}", other),
            }
            assert!(matches!(items[2], PropertyValue::Float(b) if f32::from_bits(b) == 80.0));
        }
        other => panic!("unexpected {:?}", other),
    }
}
