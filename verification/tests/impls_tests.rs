use std::collections::HashMap;
use valu3::datetime::{DateTime, Duration};
use valu3::number::Number;
use valu3::stringb::{StringB, StringBehavior};
use valu3::traits::ToValueBehavior;
use valu3::value::Value;

fn float_value(v: f64) -> Value {
    Value::Number(Number::from_f64(serde_json::Number::from_f64(v).unwrap()))
}

#[test]
fn test_DefaultValue_number_behavior() {
    let value = float_value(3.14);
    assert_eq!(
        value.get_f64_unsafe(),
        serde_json::Number::from_f64(3.14).unwrap()
    );
}

#[test]
fn test_DefaultValue_object_behavior() {
    let mut value = Value::from(HashMap::from_iter(
        vec![("1", float_value(3.14))].into_iter(),
    ));
    value.insert("2", float_value(4.13));

    if let Some(item) = value.get_mut("1") {
        *item = float_value(1.43);
    }

    assert_eq!(value.get("1").unwrap(), &float_value(1.43));
}

#[test]
fn test_DefaultValue_array_behavior() {
    let mut value = Value::from(vec![1, 2, 3]);
    value.push(4);

    if let Some(item) = value.get_mut("1") {
        *item = float_value(1.43);
    }

    assert_eq!(value.get("1").unwrap(), &float_value(1.43));
}

#[test]
fn test_DefaultValue_datetime_behavior() {
    let dt_date = Value::from_ymd_opt(2023, 4, 5);
    let dt_datetime = Value::with_ymd_and_hms(2023, 4, 5, 12, 34, 56);

    assert_eq!(
        dt_date.add_duration(Duration::days(1)),
        Some(DateTime::from_ymd_opt(2023, 4, 6).to_value())
    );
    assert_eq!(
        dt_datetime.add_duration(Duration::days(1)),
        Some(DateTime::with_ymd_and_hms(2023, 4, 6, 12, 34, 56).to_value())
    );
}

#[test]
fn test_DefaultValue_string_behavior() {
    let string = Value::from("hello");
    let concat = string.concat("!");
    assert!(concat == StringB::from("hello!").to_value())
}

#[test]
fn wrong_slot_reads_stay_recoverable() {
    let value = Value::Number(Number::from(5));
    assert_eq!(value.get_i32(), Some(5));
    assert_eq!(value.get_u8(), None);
    assert!(!Value::Null.is_number());
    assert!(!Value::Boolean(true).is_f64());
    assert_eq!(
        Value::Boolean(true).number_type(),
        valu3::number::NumberType::Unknown
    );
    let _ = 1.to_value();
}
