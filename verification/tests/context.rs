use serde_json::{Number, Value};
use victors::context::{Context, NOT_AN_OBJECT};
use victors::errors::VictorsErrors;

fn text(value: &str) -> Value {
    Value::String(value.to_string())
}

fn number(value: u64) -> Value {
    Value::Number(Number::from(value))
}

fn object(entries: Vec<(&str, Value)>) -> Value {
    let mut members = serde_json::Map::new();
    for (key, value) in entries {
        members.insert(key.to_string(), value);
    }
    Value::Object(members)
}

#[test]
fn new_context_is_empty() {
    let context = Context::new();

    assert!(!context.contains_key("message"));
    assert_eq!(None, context.get("message"));
    assert_eq!(None, context.get_key_value("message"));
    assert_eq!(Context::default(), context);
    assert_eq!(object(vec![]), context.into_json());
}

#[test]
fn insert_puts_a_value_under_its_key() {
    let mut context = Context::new();

    context.insert("number_users".to_string(), number(42));

    assert!(context.contains_key("number_users"));
    assert!(!context.contains_key("number"));
    assert_eq!(Some(&number(42)), context.get("number_users"));
    assert_eq!(
        Some((&"number_users".to_string(), &number(42))),
        context.get_key_value("number_users")
    );
}

#[test]
fn insert_replaces_the_value_of_a_key_that_is_there() {
    let mut context = Context::new();
    context.insert("a".to_string(), number(1));
    context.insert("b".to_string(), number(2));

    context.insert("a".to_string(), text("one"));

    assert_eq!(Some(&text("one")), context.get("a"));
    assert_eq!(Some(&number(2)), context.get("b"));
    assert_eq!(object(vec![("a", text("one")), ("b", number(2))]), context.into_json());
}

#[test]
fn extend_overwrites_existing_keys() {
    let mut target = Context::new();
    target.insert("a".to_string(), number(1));
    target.insert("b".to_string(), number(2));
    let mut source = Context::new();
    source.insert("b".to_string(), number(3));
    source.insert("d".to_string(), number(4));

    target.extend(source);

    assert_eq!(Some(&number(1)), target.get("a"));
    assert_eq!(Some(&number(3)), target.get("b"));
    assert_eq!(Some(&number(4)), target.get("d"));
    assert_eq!(
        object(vec![("a", number(1)), ("b", number(3)), ("d", number(4))]),
        target.into_json()
    );
}

#[test]
fn extend_with_an_empty_context_changes_nothing() {
    let mut target = Context::new();
    target.insert("a".to_string(), number(1));
    let before = target.clone();

    target.extend(Context::new());

    assert_eq!(before, target);
}

#[test]
fn from_value_takes_the_members_of_an_object() {
    let context =
        Context::from_value(object(vec![("message", text("hello world")), ("n", Value::Null)]))
            .unwrap();

    assert_eq!(Some(&text("hello world")), context.get("message"));
    assert_eq!(Some(&Value::Null), context.get("n"));
    assert!(!context.contains_key("hello world"));
}

#[test]
fn from_value_refuses_what_is_not_an_object() {
    let refused = vec![
        Value::Null,
        Value::Bool(true),
        number(1),
        text("{}"),
        Value::Array(vec![object(vec![])]),
    ];

    assert_eq!(
        "Creating a Context from a Value/Serialize requires it being a JSON object",
        NOT_AN_OBJECT
    );
    for value in refused {
        let expected = VictorsErrors::Msg(NOT_AN_OBJECT.to_string());
        assert_eq!(Some(expected), Context::from_value(value).err());
    }
}

#[test]
fn into_json_and_from_value_undo_each_other() {
    let nested = object(vec![
        ("list", Value::Array(vec![number(1), text("two"), Value::Bool(false)])),
        ("inner", object(vec![("deep", Value::Null)])),
    ]);

    let context = Context::from_value(nested.clone()).unwrap();
    let copy = context.clone();

    assert_eq!(nested, context.into_json());
    assert_eq!(copy, Context::from_value(nested).unwrap());
}

#[test]
fn contexts_are_equal_whatever_the_order_of_insertion() {
    let mut forward = Context::new();
    forward.insert("a".to_string(), number(1));
    forward.insert("b".to_string(), number(2));
    let mut backward = Context::new();
    backward.insert("b".to_string(), number(2));
    backward.insert("a".to_string(), number(1));

    assert_eq!(forward, backward);
}

#[test]
fn contexts_differ_by_a_value_or_by_a_key() {
    let mut one = Context::new();
    one.insert("a".to_string(), number(1));
    let mut other_value = Context::new();
    other_value.insert("a".to_string(), number(2));
    let mut more_keys = one.clone();
    more_keys.insert("b".to_string(), number(1));

    assert_ne!(one, other_value);
    assert_ne!(one, more_keys);
    assert_ne!(more_keys, one);
    assert_ne!(one, Context::new());
}

#[test]
fn a_clone_does_not_follow_later_changes() {
    let mut context = Context::new();
    context.insert("a".to_string(), number(1));

    let copy = context.clone();
    context.insert("a".to_string(), number(2));
    context.insert("b".to_string(), number(3));

    assert_eq!(Some(&number(1)), copy.get("a"));
    assert!(!copy.contains_key("b"));
}
