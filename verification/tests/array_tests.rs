use valu3::array::Array;
use valu3::value::Value;

#[test]
fn array_new() {
    let array = Array::new();
    assert!(array.is_empty());
}

#[test]
fn array_push_pop() {
    let mut array = Array::new();
    array.push(Value::from(42));
    assert_eq!(array.pop(), Some(Value::from(42)));
}

#[test]
fn array_len() {
    let mut array = Array::new();
    array.push(Value::from(42));
    assert_eq!(array.len(), 1);
}

#[test]
fn array_get() {
    let mut array = Array::new();
    array.push(Value::from(42));
    assert_eq!(array.get(0), Some(&Value::from(42)));
}

#[test]
fn array_get_mut() {
    let mut array = Array::new();
    array.push(Value::from(42));
    if let Some(value) = array.get_mut(0) {
        *value = Value::from(84);
    }
    assert_eq!(array.get(0), Some(&Value::from(84)));
}

#[test]
fn array_from_value() {
    let array = Array::from(Value::from(42));
    assert_eq!(array.len(), 1);
    assert_eq!(array.get(0), Some(&Value::from(42)));
}

#[test]
fn array_from_vec() {
    let array = Array::from(vec![Value::from(42), Value::from("hello")]);
    assert_eq!(array.len(), 2);
    assert_eq!(array.get(0), Some(&Value::from(42)));
    assert_eq!(array.get(1), Some(&Value::from("hello")));
}

#[test]
fn value_array_push_then_pop() {
    let mut value = Value::from(vec![1, 2, 3]);
    value.push(4);
    assert_eq!(value.pop(), Some(Value::Number(valu3::number::Number::from(4))));
    assert_eq!(value.len(), 3);
}
