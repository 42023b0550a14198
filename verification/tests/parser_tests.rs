use std::collections::HashMap;
use valu3::number::Number;
use valu3::object::Object;
use valu3::stringb::StringB;
use valu3::traits::ToValueBehavior;
use valu3::value::Value;
use valu3::Error;

fn float_number(v: f64) -> Number {
    Number::from_f64(serde_json::Number::from_f64(v).unwrap())
}

#[test]
fn json() {
    let raw: &str = "{
        \"test\": true,
        \"test2\": \"ok\",
        \"test3\": [0, 1]
       }";

    let compare = Value::from({
        let mut map = HashMap::new();
        map.insert("test".to_string(), true.to_value());
        map.insert("test2".to_string(), "ok".to_value());
        map.insert("test3".to_string(), Value::from(vec![0, 1]));
        map
    });

    assert_eq!(Value::payload_to_value(raw), Ok(compare));
}

#[test]
fn array() {
    let raw = "[0, true, null, \"ok\"]";

    let compare = {
        let mut list = Vec::new();
        list.push(Value::Number(Number::from(0)));
        list.push(Value::Boolean(true));
        list.push(Value::Null);
        list.push(Value::String(StringB::from("ok")));
        Value::from(list)
    };

    assert_eq!(Value::payload_to_value(raw), Ok(compare));
}

#[test]
fn number() {
    let int = "0";
    let float = "1.0";

    assert_eq!(
        Value::payload_to_value(int),
        Ok(Value::Number(Number::from(0)))
    );
    assert_eq!(
        Value::payload_to_value(float),
        Ok(Value::Number(float_number(1.0)))
    );
}

#[test]
fn string() {
    let string = r#""string""#;

    assert_eq!(
        Value::payload_to_value(string),
        Ok(Value::String(StringB::from("string")))
    );
}

#[test]
fn null() {
    let null = "null";

    assert_eq!(Value::payload_to_value(null), Ok(Value::Null));
}

#[test]
fn boolean() {
    let boolean = "true";

    assert_eq!(Value::payload_to_value(boolean), Ok(Value::Boolean(true)));
}

#[test]
fn all() {
    let boolean = Value::payload_to_value("true").unwrap();
    let float = Value::payload_to_value("3.14").unwrap();
    let json = Value::payload_to_value(r#"{"item": 3.14}"#).unwrap();
    let array = Value::payload_to_value(r#"[1,2,3]"#).unwrap();
    let null = Value::payload_to_value("null").unwrap();
    let string = Value::payload_to_value(r#""123""#).unwrap();

    assert_eq!(boolean, true.to_value());
    assert_eq!(float, Value::Number(float_number(3.14)));
    assert_eq!(
        json,
        Object::from(vec![("item", Value::Number(float_number(3.14)))]).to_value()
    );
    assert_eq!(array, vec![1, 2, 3].to_value());
    assert_eq!(null, Value::Null);
    assert_eq!(string, "123".to_value());
}

#[test]
fn blank_text_is_not_parseable() {
    assert_eq!(Value::payload_to_value("   \n\t "), Err(Error::NonParseble));
    assert_eq!(Value::payload_to_value(""), Err(Error::NonParseble));
}

#[test]
fn broken_text_reports_a_message() {
    match Value::payload_to_value("{\"a\": ") {
        Err(Error::NonParsebleMsg(_)) => {}
        other => panic!("{:?}", other),
    }
    match Value::payload_to_value("[1, 2") {
        Err(Error::NonParsebleMsg(_)) => {}
        other => panic!("{:?}", other),
    }
    match Value::payload_to_value("true false") {
        Err(Error::NonParsebleMsg(_)) => {}
        other => panic!("{:?}", other),
    }
}

#[test]
fn str_to_value_reads_objects() {
    let value = Value::str_to_value("{\"a\": true, \"b\": [0,1]}").unwrap();
    assert_eq!(value.get("a"), Some(&Value::Boolean(true)));
    assert_eq!(value.get("b"), Some(&Value::from(vec![0, 1])));
}

#[test]
fn round_trip_through_indented_json() {
    let mut object = Object::default();
    object.insert("alpha".to_string(), Value::from(42));
    object.insert("beta".to_string(), Value::from(vec![1, 2, 3]));
    object.insert("gamma".to_string(), Value::Boolean(false));
    object.insert("delta".to_string(), Value::Null);
    object.insert("text".to_string(), Value::from("plain words"));
    let value = Value::Object(object);

    let text = value.to_json(valu3::to::json::JsonMode::Indented);
    assert_eq!(Value::payload_to_value(&text), Ok(value));
}

#[test]
fn inline_json_is_a_fixed_point_of_stripping() {
    let value = Value::from(vec![Value::from(1), Value::from("two"), Value::Null]);
    let inline = value.to_json(valu3::to::json::JsonMode::Inline);
    let reparsed = Value::payload_to_value(&inline).unwrap();
    let again = reparsed.to_json(valu3::to::json::JsonMode::Inline);
    assert!(!inline.contains('\n'));
    assert!(!inline.contains('\t'));
    assert_eq!(Value::payload_to_value(&again), Ok(reparsed));
}
