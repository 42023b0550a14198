use std::collections::BTreeMap;
use std::collections::HashMap;
use valu3::traits::FromValueBehavior;
use valu3::traits::ValueKeyBehavior;
use valu3::value_key::ValueKey;
use valu3::array::Array;
use valu3::number::Number;
use valu3::object::Object;
use valu3::stringb::StringB;
use valu3::traits::ToValueBehavior;
use valu3::value::Value;

#[test]
fn test_boolean() {
    assert_eq!(true.to_value(), Value::Boolean(true));
    assert_eq!(false.to_value(), Value::Boolean(false));
}

#[test]
fn test_string() {
    assert_eq!(
        "test".to_value(),
        Value::String(StringB::from("test".to_string()))
    );
}

#[test]
fn test_array() {
    assert_eq!(
        vec![1, 2, 3].to_value(),
        Value::Array(Array::from(vec![Value::from(1), Value::from(2), Value::from(3)]))
    );
}

#[test]
fn test_object() {
    let mut map = HashMap::new();
    map.insert("test", 1);
    let as_value = map.to_value();
    assert_eq!(as_value, Object::from(map).to_value());
}

#[test]
fn test_vec_value_macro() {
    assert_eq!(
        vec![1.to_value(), 2.to_value(), vec![1, 2, 3].to_value()],
        vec![Value::from(1), Value::from(2), Value::from(vec![1, 2, 3])]
    );
}

#[test]
fn test_from_usize() {
    let number = 1 as usize;
    assert_eq!(number.to_value(), Value::Number(Number::from(number)));
}

#[test]
fn string_keys_never_turn_into_index_keys() {
    let key = "7".to_value_key();
    assert_eq!(key, ValueKey::String(StringB::from("7")));
    let index = 7usize.to_value_key();
    assert_eq!(index, ValueKey::Number(7));
    assert!(!<&str as ValueKeyBehavior>::is_usize());
    assert!(<usize as ValueKeyBehavior>::is_usize());
}

#[test]
fn vectors_and_maps_come_back_from_values() {
    let value = vec![1, 2, 3].to_value();
    let back: Option<Vec<i32>> = <Vec<i32>>::from_value(value);
    assert_eq!(back, Some(vec![1, 2, 3]));

    let not_array: Option<Vec<i32>> = <Vec<i32>>::from_value(Value::Boolean(true));
    assert_eq!(not_array, None);

    let mut map = HashMap::new();
    map.insert("a".to_string(), 1i32);
    map.insert("b".to_string(), 2i32);
    let value = map.to_value();
    let back: Option<HashMap<String, i32>> = <HashMap<String, i32>>::from_value(value.clone());
    assert_eq!(back, Some(map));

    let back_sorted: Option<BTreeMap<String, i32>> =
        <BTreeMap<String, i32>>::from_value(value);
    let mut expected = BTreeMap::new();
    expected.insert("a".to_string(), 1i32);
    expected.insert("b".to_string(), 2i32);
    assert_eq!(back_sorted, Some(expected));

    let not_object: Option<HashMap<String, i32>> =
        <HashMap<String, i32>>::from_value(Value::Null);
    assert_eq!(not_object, None);
}
