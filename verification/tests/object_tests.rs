use std::collections::BTreeMap;
use valu3::object::{object_from_pairs, Object};
use valu3::value_key::ValueKey;
use valu3::stringb::StringB;
use valu3::traits::{ToValueBehavior, ValueKeyBehavior};
use valu3::value::Value;

#[test]
fn test_object_iter() {
    let value1 = Value::Null;
    let value2 = StringB::from("ok").to_value();

    let mut map = BTreeMap::new();
    map.insert("key1".to_string(), value1.clone());
    map.insert("key2".to_string(), value2.clone());
    let obj = Object::from(map);

    let mut iter = obj.iter();
    let mut results = vec![];

    while let Some((key, value)) = iter.next() {
        results.push((key.clone(), value.clone()));
    }

    assert_eq!(
        results,
        vec![
            ("key1".to_string().to_value_key(), value1),
            ("key2".to_string().to_value_key(), value2)
        ]
    );
}

#[test]
fn test_object_from_vec() {
    let vec = vec![
        ("key1".to_string(), Value::Null),
        ("key2".to_string(), StringB::from("ok").to_value()),
    ];

    let obj = Object::from(vec);
    assert_eq!(obj.get("key1".to_string()), Some(&Value::Null));
    assert_eq!(
        obj.get("key2".to_string()),
        Some(&StringB::from("ok").to_value())
    );
}

#[test]
fn insert_returns_the_previous_value_and_remove_takes_it_out() {
    let mut obj = Object::default();
    assert_eq!(obj.insert("k".to_string(), Value::from(1)), None);
    assert_eq!(
        obj.insert("k".to_string(), Value::from(2)),
        Some(Value::from(1))
    );
    assert_eq!(obj.len(), 1);
    assert_eq!(obj.remove(&"k".to_string()), Some(Value::from(2)));
    assert!(obj.is_empty());
    assert_eq!(obj.remove(&"k".to_string()), None);
}

#[test]
fn sorted_objects_keep_their_keys_ordered() {
    let mut obj = Object::new_sorted();
    obj.insert("pear".to_string(), Value::from(1));
    obj.insert("apple".to_string(), Value::from(2));
    obj.insert("melon".to_string(), Value::from(3));
    let keys: Vec<String> = obj.keys().iter().map(|k| k.as_string()).collect();
    assert_eq!(keys, vec!["apple".to_string(), "melon".to_string(), "pear".to_string()]);
}

#[test]
fn objects_from_pairs_fold_the_insertions() {
    let pairs = vec![
        (ValueKey::String(StringB::from("k")), Value::from(1)),
        (ValueKey::String(StringB::from("k")), Value::from(2)),
        (ValueKey::String(StringB::from("m")), Value::from(3)),
    ];
    let obj = object_from_pairs(pairs, false);
    assert_eq!(obj.len(), 2);
    assert_eq!(obj.get("k"), Some(&Value::from(2)));
    assert_eq!(obj.get("m"), Some(&Value::from(3)));

    let pairs = vec![
        (ValueKey::String(StringB::from("pear")), Value::from(1)),
        (ValueKey::String(StringB::from("apple")), Value::from(2)),
    ];
    let obj = object_from_pairs(pairs, true);
    let keys: Vec<String> = obj.keys().iter().map(|k| k.as_string()).collect();
    assert_eq!(keys, vec!["apple".to_string(), "pear".to_string()]);
}
