use std::collections::{BTreeMap, HashMap};
use valu3::number::Number;
use valu3::object::Object;
use valu3::traits::ToValueBehavior;
use valu3::value::Value;

// The conversions a derive layer would generate, written out by hand for the
// shapes these tests use.
#[derive(Default, PartialEq, Debug, Clone)]
struct Product {
    name: String,
    price: f32,
    active: bool,
}

impl Product {
    fn to_value(&self) -> Value {
        let mut object = Object::default();
        object.insert("name".to_string(), self.name.to_value());
        object.insert(
            "price".to_string(),
            Value::Number(Number::from_f64(
                serde_json::Number::from_f64(self.price as f64).unwrap(),
            )),
        );
        object.insert("active".to_string(), self.active.to_value());
        Value::Object(object)
    }

    fn from_value(value: Value) -> Option<Product> {
        match value {
            Value::Object(_) => {
                let name = match value.get("name")? {
                    Value::String(s) => s.as_string(),
                    _ => return None,
                };
                let price = match value.get("price")? {
                    Value::Number(n) => n.get_f64()?.as_f64()? as f32,
                    _ => return None,
                };
                let active = match value.get("active")? {
                    Value::Boolean(b) => *b,
                    _ => return None,
                };
                Some(Product { name, price, active })
            }
            _ => None,
        }
    }
}

#[test]
fn test_derive_test_value_string() {
    let product1 = Product {
        name: "Apple".to_string(),
        price: 1.99,
        active: true,
    };

    let json1 = "{
            \"name\": \"Apple\",
            \"price\": 1.99,
            \"active\": true
        }";

    let value = match Value::payload_to_value(json1) {
        Ok(value) => value,
        Err(err) => panic!("{:#?}", err),
    };

    let product = Product::from_value(value.clone());

    assert_eq!(product.is_some(), true);
    assert_eq!(product.unwrap(), product1);
}

#[derive(PartialEq, Debug, Clone)]
enum ExampleType {
    Example1,
    Example2,
}

impl ExampleType {
    fn to_value(&self) -> Value {
        match self {
            ExampleType::Example1 => "Example1".to_value(),
            ExampleType::Example2 => "Example2".to_value(),
        }
    }

    fn from_value(value: Value) -> Option<ExampleType> {
        match value {
            Value::String(s) => match s.as_string().as_str() {
                "Example1" => Some(ExampleType::Example1),
                "Example2" => Some(ExampleType::Example2),
                _ => None,
            },
            _ => None,
        }
    }
}

#[derive(PartialEq, Debug, Default, Clone)]
struct Inner {
    item_a: bool,
    tree: BTreeMap<String, String>,
}

impl Inner {
    fn to_value(&self) -> Value {
        let mut object = Object::default();
        object.insert("item_a".to_string(), self.item_a.to_value());
        object.insert("tree".to_string(), self.tree.to_value());
        Value::Object(object)
    }

    fn from_value(value: Value) -> Option<Inner> {
        match &value {
            Value::Object(_) => {
                let item_a = match value.get("item_a")? {
                    Value::Boolean(b) => *b,
                    _ => return None,
                };
                let mut tree = BTreeMap::new();
                match value.get("tree")? {
                    Value::Object(map) => {
                        let mut iter = map.iter();
                        while let Some((key, entry)) = iter.next() {
                            match entry {
                                Value::String(s) => {
                                    tree.insert(key.as_string(), s.as_string());
                                }
                                _ => return None,
                            }
                        }
                    }
                    _ => return None,
                }
                Some(Inner { item_a, tree })
            }
            _ => None,
        }
    }
}

#[derive(PartialEq, Debug, Clone)]
struct Example {
    item_a: i32,
    item_b: String,
    item_c: Option<Vec<String>>,
    item_d: HashMap<String, Inner>,
    item_e: ExampleType,
    item_f: String,
}

impl Example {
    fn to_value(&self) -> Value {
        let mut object = Object::default();
        object.insert("item_a".to_string(), self.item_a.to_value());
        object.insert("item_b".to_string(), self.item_b.to_value());
        object.insert("item_c".to_string(), self.item_c.to_value());
        let mut inner_map = Object::default();
        for (key, inner) in self.item_d.iter() {
            inner_map.insert(key.clone(), inner.to_value());
        }
        object.insert("item_d".to_string(), Value::Object(inner_map));
        object.insert("item_e".to_string(), self.item_e.to_value());
        object.insert("item_f".to_string(), self.item_f.to_value());
        Value::Object(object)
    }

    fn from_value(value: Value) -> Option<Example> {
        let item_a = match value.get("item_a")? {
            Value::Number(n) => n.get_i32()?,
            _ => return None,
        };
        let item_b = match value.get("item_b")? {
            Value::String(s) => s.as_string(),
            _ => return None,
        };
        let item_c = match value.get("item_c")? {
            Value::Null => None,
            Value::Array(items) => {
                let mut texts = Vec::new();
                let mut i = 0;
                while let Some(item) = items.get(i) {
                    match item {
                        Value::String(s) => texts.push(s.as_string()),
                        _ => return None,
                    }
                    i += 1;
                }
                Some(texts)
            }
            _ => return None,
        };
        let mut item_d = HashMap::new();
        match value.get("item_d")? {
            Value::Object(map) => {
                let mut iter = map.iter();
                while let Some((key, entry)) = iter.next() {
                    item_d.insert(key.as_string(), Inner::from_value(entry.clone())?);
                }
            }
            _ => return None,
        }
        let item_e = ExampleType::from_value(value.get("item_e")?.clone())?;
        let item_f = match value.get("item_f")? {
            Value::String(s) => s.as_string(),
            _ => return None,
        };
        Some(Example { item_a, item_b, item_c, item_d, item_e, item_f })
    }
}

#[test]
fn test_example() {
    let example = Example {
        item_a: 1,
        item_b: "Hello".to_string(),
        item_c: Some(vec!["World".to_string()]),
        item_d: HashMap::default(),
        item_e: ExampleType::Example1,
        item_f: "Generic".to_string(),
    };

    let value = example.to_value();

    assert_eq!(example, Example::from_value(value).unwrap());
}
