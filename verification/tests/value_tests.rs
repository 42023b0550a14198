use std::collections::{BTreeMap, HashMap};
use valu3::array::Array;
use valu3::datetime::DateTime;
use valu3::number::Number;
use valu3::object::Object;
use valu3::stringb::StringB;
use valu3::value::Value;

#[test]
fn value_test_value_string() {
    let string = StringB::from("hello".to_string());
    let value = Value::String(string.clone());
    assert_eq!(value, Value::String(string));
}

#[test]
fn test_value_number() {
    let number = Number::from(42);
    let value = Value::Number(number);
    assert_eq!(value, Value::Number(Number::from(42)));
}

#[test]
fn test_value_boolean() {
    let value = Value::Boolean(true);
    assert_eq!(value, Value::Boolean(true));
}

#[test]
fn test_value_array() {
    let mut array = Array::new();
    array.push(Value::Number(Number::from(1)));
    array.push(Value::Number(Number::from(2)));
    let value = Value::Array(array.clone());
    assert_eq!(value, Value::Array(array));
}

#[test]
fn value_test_value_object() {
    let mut object = Object::default();
    object.insert(
        "key".to_string(),
        Value::String(StringB::from("value".to_string())),
    );
    let value = Value::Object(object.clone());
    assert_eq!(value, Value::Object(object));
}

#[test]
fn test_value_null() {
    let value = Value::Null;
    assert_eq!(value, Value::Null);
}

#[test]
fn test_value_undefined() {
    let value = Value::Undefined;
    assert_eq!(value, Value::Undefined);
}

#[test]
fn test_value_datetime() {
    let datetime = DateTime::parse("2023-04-05T00:00:00Z").unwrap();
    let value = Value::DateTime(datetime.clone());
    assert_eq!(value, Value::DateTime(datetime));
}

#[test]
fn hash_and_sorted_objects_answer_lookups_alike() {
    let mut sorted = BTreeMap::new();
    sorted.insert("a".to_string(), Value::from(1));
    sorted.insert("b".to_string(), Value::from(2));
    let mut hashed = HashMap::new();
    hashed.insert("b".to_string(), Value::from(2));
    hashed.insert("a".to_string(), Value::from(1));

    let left = Object::from(sorted);
    let right = Object::from(hashed);
    assert_eq!(left.len(), right.len());
    assert_eq!(left.get("a".to_string()), right.get("a".to_string()));
    assert_eq!(left.get("b".to_string()), right.get("b".to_string()));
    assert_eq!(
        left.contains_key(&"c".to_string()),
        right.contains_key(&"c".to_string())
    );
}
