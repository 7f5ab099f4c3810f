use headmaster::json::{object, object1, object2, object3, object4, texts};

fn text(s: &str) -> serde_json::Value {
    serde_json::Value::String(s.to_string())
}

fn parsed(s: &str) -> serde_json::Value {
    serde_json::from_str(s).unwrap()
}

#[test]
fn collected_members_keep_their_order_and_the_last_value() {
    let value = object(vec![
        ("z".to_string(), text("1")),
        ("a".to_string(), text("2")),
        ("z".to_string(), text("3")),
    ]);
    assert_eq!(serde_json::to_string(&value).unwrap(), r#"{"z":"3","a":"2"}"#);
}

#[test]
fn fixed_objects_hold_their_members() {
    assert_eq!(object1("a", text("1")), parsed(r#"{"a":"1"}"#));
    assert_eq!(object2("a", text("1"), "b", text("2")), parsed(r#"{"a":"1","b":"2"}"#));
    assert_eq!(
        object3("a", text("1"), "b", text("2"), "c", text("3")),
        parsed(r#"{"a":"1","b":"2","c":"3"}"#)
    );
    assert_eq!(
        object4("a", text("1"), "b", text("2"), "c", text("3"), "d", text("4")),
        parsed(r#"{"a":"1","b":"2","c":"3","d":"4"}"#)
    );
}

#[test]
fn text_lists_become_arrays() {
    let items = vec!["x".to_string(), "y".to_string()];
    assert_eq!(texts(&items), parsed(r#"["x","y"]"#));
}
