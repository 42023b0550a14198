use std::collections::BTreeMap;
use valu3::array::Array;
use valu3::number::Number;
use valu3::object::Object;
use valu3::stringb::StringB;
use valu3::to::json::JsonMode;
use valu3::traits::ToValueBehavior;
use valu3::value::Value;

#[test]
fn test_to_yaml() {
    let object = Object::from(
        vec![
            ("null_value".to_string(), Value::Null),
            ("boolean_value".to_string(), Value::Boolean(true)),
            ("number_value".to_string(), Number::from(42).to_value()),
            (
                "string_value".to_string(),
                StringB::from("Hello, world!".to_string()).to_value(),
            ),
            (
                "array_value".to_string(),
                Array::from(vec![
                    Number::from(1).to_value(),
                    Number::from(2).to_value(),
                    Number::from(3).to_value(),
                ])
                .to_value(),
            ),
            (
                "object_value".to_string(),
                Object::from(
                    vec![
                        (
                            "key1".to_string(),
                            StringB::from("value1".to_string()).to_value(),
                        ),
                        (
                            "key2".to_string(),
                            StringB::from("value2".to_string()).to_value(),
                        ),
                    ]
                    .into_iter()
                    .collect::<BTreeMap<String, Value>>(),
                )
                .to_value(),
            ),
            ("undefined_value".to_string(), Value::Undefined),
        ]
        .into_iter()
        .collect::<BTreeMap<String, Value>>(),
    );

    let value = Value::Object(object);
    let yaml_output = value.to_yaml();
    let mut yaml_lines: Vec<_> = yaml_output.lines().collect();
    yaml_lines.sort();

    assert!(yaml_output.contains("null_value: null\n"));
    assert!(yaml_output.contains("boolean_value: true\n"));
    assert!(yaml_output.contains("number_value: 42\n"));
    assert!(yaml_output.contains("string_value: \"Hello, world!\"\n"));
    assert!(yaml_output.contains("undefined_value: ~\n"));
    assert!(yaml_output.contains(" - 1\n"));
    assert!(yaml_output.contains("  key1: \"value1\"\n"));
}

#[test]
fn indented_json_of_scalars() {
    assert_eq!(Value::Null.to_json(JsonMode::Indented), "null");
    assert_eq!(Value::Undefined.to_json(JsonMode::Indented), "undefined");
    assert_eq!(Value::Boolean(true).to_json(JsonMode::Indented), "true");
    assert_eq!(Value::from(42).to_json(JsonMode::Indented), "42");
    assert_eq!(Value::from("hi").to_json(JsonMode::Indented), "\"hi\"");
}

#[test]
fn indented_json_of_containers() {
    let value = Value::from(vec![1, 2]);
    assert_eq!(value.to_json(JsonMode::Indented), "[\n\t1,\n\t2\n]");
    assert_eq!(value.to_json(JsonMode::Inline), "[1,2]");

    let mut object = Object::default();
    object.insert("a".to_string(), Value::from(1));
    let value = Value::Object(object);
    assert_eq!(value.to_json(JsonMode::Indented), "{\n\t\"a\": 1\n}");
    assert_eq!(value.to_json(JsonMode::Inline), "{\"a\": 1}");
}

#[test]
fn quotes_in_strings_get_a_backslash() {
    let value = Value::from("say \"hi\"");
    assert_eq!(value.to_json(JsonMode::Indented), "\"say \\\"hi\\\"\"");
}

#[test]
fn tabs_builds_the_indentation() {
    assert_eq!(Value::tabs(0), "");
    assert_eq!(Value::tabs(3), "\t\t\t");
}

#[test]
fn value_clean_empties_containers() {
    let mut value = Value::from(vec![1, 2, 3]);
    value.clean();
    assert_eq!(value.len(), 0);

    let mut object = Object::default();
    object.insert("a".to_string(), Value::from(1));
    let mut value = Value::Object(object);
    value.clean();
    assert!(value.is_empty());

    let mut value = Value::Number(Number::from(7));
    value.clean();
    assert!(!value.is_integer());
}
