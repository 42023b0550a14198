//! The conversion capabilities: becoming a `Value`, being rebuilt from one,
//! and serving as an object key.
use crate::value::{Value, ValueModel, value_model};
use std::collections::BTreeMap;
use std::collections::HashMap;
use crate::value_key::{KeyModel, ValueKey};
use crate::stringb::StringB;
use vstd::prelude::*;

verus! {

/// The capability of serving as an object key or an array index.
pub trait ValueKeyBehavior: Sized {
    /// The key this value denotes.
    spec fn key_model(&self) -> KeyModel;

    /// Whether values of this type index arrays.
    spec fn usize_like() -> bool;

    /// The key as a `ValueKey`.
    fn to_value_key(&self) -> (r: ValueKey)
        ensures
            r@ == self.key_model(),
    ;

    /// The array index this key denotes; zero for string keys.
    fn as_usize(&self) -> (r: usize)
        ensures
            Self::usize_like() ==> self.key_model() == KeyModel::Index(r),
            !Self::usize_like() ==> r == 0,
    ;

    /// Whether this key type indexes arrays.
    fn is_usize() -> (r: bool)
        ensures
            r == Self::usize_like(),
    ;
}

impl ValueKeyBehavior for String {
    open spec fn key_model(&self) -> KeyModel {
        KeyModel::Text(self@)
    }

    open spec fn usize_like() -> bool {
        false
    }

    fn to_value_key(&self) -> (r: ValueKey) {
        ValueKey::String(StringB { value: self.clone() })
    }

    fn as_usize(&self) -> (r: usize) {
        0
    }

    fn is_usize() -> (r: bool) {
        false
    }
}

impl ValueKeyBehavior for &str {
    open spec fn key_model(&self) -> KeyModel {
        KeyModel::Text(self@)
    }

    open spec fn usize_like() -> bool {
        false
    }

    fn to_value_key(&self) -> (r: ValueKey) {
        ValueKey::String(StringB { value: (*self).to_owned() })
    }

    fn as_usize(&self) -> (r: usize) {
        0
    }

    fn is_usize() -> (r: bool) {
        false
    }
}

impl ValueKeyBehavior for usize {
    open spec fn key_model(&self) -> KeyModel {
        KeyModel::Index(*self)
    }

    open spec fn usize_like() -> bool {
        true
    }

    fn to_value_key(&self) -> (r: ValueKey) {
        ValueKey::Number(*self)
    }

    fn as_usize(&self) -> (r: usize) {
        *self
    }

    fn is_usize() -> (r: bool) {
        true
    }
}

impl ValueKeyBehavior for ValueKey {
    open spec fn key_model(&self) -> KeyModel {
        self@
    }

    open spec fn usize_like() -> bool {
        false
    }

    fn to_value_key(&self) -> (r: ValueKey) {
        self.clone()
    }

    fn as_usize(&self) -> (r: usize) {
        0
    }

    fn is_usize() -> (r: bool) {
        false
    }
}

/// The capability of being embedded as a `Value`.
pub trait ToValueBehavior {
    /// Whether `to_value_model` pins the result exactly; map conversions
    /// leave their entry order open.
    spec fn to_value_exact() -> bool;

    /// The model of the value this becomes.
    spec fn to_value_model(&self) -> ValueModel;

    /// This, as a `Value`.
    fn to_value(&self) -> (r: Value)
        ensures
            Self::to_value_exact() ==> r@ == self.to_value_model(),
    ;
}

/// The capability of being rebuilt from a `Value`.
pub trait FromValueBehavior {
    /// What the rebuilding yields.
    type Item;

    /// Whether the rebuilding is defined on this value; outside it, nested
    /// elements of the wrong shape are a caller error.
    spec fn from_value_ok(v: Value) -> bool;

    /// Whether the value has the shape this type is rebuilt from.
    spec fn from_value_some(v: Value) -> bool;

    /// Whether `from_value_model` pins the result exactly.
    spec fn from_value_exact() -> bool;

    /// What the rebuilding yields, when the value has the expected shape.
    spec fn from_value_model(v: Value) -> Option<Self::Item>;

    /// Rebuilds from a value; `None` when the shape does not match.
    fn from_value(value: Value) -> (r: Option<Self::Item>)
        requires
            Self::from_value_ok(value),
        ensures
            r is Some <==> Self::from_value_some(value),
            Self::from_value_exact() ==> r == Self::from_value_model(value),
    ;
}

/// A marker for the native shapes that convert to `Value` directly.
pub trait PrimitiveType {

}

/// The capability of rendering as JSON text.
pub trait ToJsonBehavior {
    /// This, as JSON text.
    fn to_json_text(&self) -> String;
}

/// The capability of rendering as YAML text.
pub trait ToYamlBehavior {
    /// This, as YAML text.
    fn to_yaml(&self) -> String;
}

/// The capability of rendering as XML text.
pub trait ToXmlBehavior {
    /// This, as XML text.
    fn to_xml(&self) -> String;
}

/// The capability of the central value type itself.
pub trait ValueBehavior: Sized {
    /// A value built from an ordered collection of values.
    fn from_array(target: Vec<Self>) -> Self;
}

/// A marker for the central value type.
pub trait ValueTrait {

}

impl ValueBehavior for Value {
    fn from_array(target: Vec<Value>) -> (r: Self) {
        Value::Array(crate::array::Array { values: target })
    }
}

impl ValueTrait for Value {

}

impl FromValueBehavior for i8 {
    type Item = i8;

    open spec fn from_value_ok(v: Value) -> bool {
        true
    }

    open spec fn from_value_some(v: Value) -> bool {
        v is Number && v->Number_0.i8_val is Some
    }

    open spec fn from_value_exact() -> bool {
        true
    }

    open spec fn from_value_model(v: Value) -> Option<i8> {
        if v is Number {
            v->Number_0.i8_val
        } else {
            None
        }
    }

    fn from_value(value: Value) -> (r: Option<i8>) {
        match value {
            Value::Number(n) => n.get_i8(),
            _ => None,
        }
    }
}

impl FromValueBehavior for i16 {
    type Item = i16;

    open spec fn from_value_ok(v: Value) -> bool {
        true
    }

    open spec fn from_value_some(v: Value) -> bool {
        v is Number && v->Number_0.i16_val is Some
    }

    open spec fn from_value_exact() -> bool {
        true
    }

    open spec fn from_value_model(v: Value) -> Option<i16> {
        if v is Number {
            v->Number_0.i16_val
        } else {
            None
        }
    }

    fn from_value(value: Value) -> (r: Option<i16>) {
        match value {
            Value::Number(n) => n.get_i16(),
            _ => None,
        }
    }
}

impl FromValueBehavior for i32 {
    type Item = i32;

    open spec fn from_value_ok(v: Value) -> bool {
        true
    }

    open spec fn from_value_some(v: Value) -> bool {
        v is Number && v->Number_0.i32_val is Some
    }

    open spec fn from_value_exact() -> bool {
        true
    }

    open spec fn from_value_model(v: Value) -> Option<i32> {
        if v is Number {
            v->Number_0.i32_val
        } else {
            None
        }
    }

    fn from_value(value: Value) -> (r: Option<i32>) {
        match value {
            Value::Number(n) => n.get_i32(),
            _ => None,
        }
    }
}

impl FromValueBehavior for i64 {
    type Item = i64;

    open spec fn from_value_ok(v: Value) -> bool {
        true
    }

    open spec fn from_value_some(v: Value) -> bool {
        v is Number && v->Number_0.i64_val is Some
    }

    open spec fn from_value_exact() -> bool {
        true
    }

    open spec fn from_value_model(v: Value) -> Option<i64> {
        if v is Number {
            v->Number_0.i64_val
        } else {
            None
        }
    }

    fn from_value(value: Value) -> (r: Option<i64>) {
        match value {
            Value::Number(n) => n.get_i64(),
            _ => None,
        }
    }
}

impl FromValueBehavior for i128 {
    type Item = i128;

    open spec fn from_value_ok(v: Value) -> bool {
        true
    }

    open spec fn from_value_some(v: Value) -> bool {
        v is Number && v->Number_0.i128_val is Some
    }

    open spec fn from_value_exact() -> bool {
        true
    }

    open spec fn from_value_model(v: Value) -> Option<i128> {
        if v is Number {
            v->Number_0.i128_val
        } else {
            None
        }
    }

    fn from_value(value: Value) -> (r: Option<i128>) {
        match value {
            Value::Number(n) => n.get_i128(),
            _ => None,
        }
    }
}

impl FromValueBehavior for u8 {
    type Item = u8;

    open spec fn from_value_ok(v: Value) -> bool {
        true
    }

    open spec fn from_value_some(v: Value) -> bool {
        v is Number && v->Number_0.u8_val is Some
    }

    open spec fn from_value_exact() -> bool {
        true
    }

    open spec fn from_value_model(v: Value) -> Option<u8> {
        if v is Number {
            v->Number_0.u8_val
        } else {
            None
        }
    }

    fn from_value(value: Value) -> (r: Option<u8>) {
        match value {
            Value::Number(n) => n.get_u8(),
            _ => None,
        }
    }
}

impl FromValueBehavior for u16 {
    type Item = u16;

    open spec fn from_value_ok(v: Value) -> bool {
        true
    }

    open spec fn from_value_some(v: Value) -> bool {
        v is Number && v->Number_0.u16_val is Some
    }

    open spec fn from_value_exact() -> bool {
        true
    }

    open spec fn from_value_model(v: Value) -> Option<u16> {
        if v is Number {
            v->Number_0.u16_val
        } else {
            None
        }
    }

    fn from_value(value: Value) -> (r: Option<u16>) {
        match value {
            Value::Number(n) => n.get_u16(),
            _ => None,
        }
    }
}

impl FromValueBehavior for u32 {
    type Item = u32;

    open spec fn from_value_ok(v: Value) -> bool {
        true
    }

    open spec fn from_value_some(v: Value) -> bool {
        v is Number && v->Number_0.u32_val is Some
    }

    open spec fn from_value_exact() -> bool {
        true
    }

    open spec fn from_value_model(v: Value) -> Option<u32> {
        if v is Number {
            v->Number_0.u32_val
        } else {
            None
        }
    }

    fn from_value(value: Value) -> (r: Option<u32>) {
        match value {
            Value::Number(n) => n.get_u32(),
            _ => None,
        }
    }
}

impl FromValueBehavior for u64 {
    type Item = u64;

    open spec fn from_value_ok(v: Value) -> bool {
        true
    }

    open spec fn from_value_some(v: Value) -> bool {
        v is Number && v->Number_0.u64_val is Some
    }

    open spec fn from_value_exact() -> bool {
        true
    }

    open spec fn from_value_model(v: Value) -> Option<u64> {
        if v is Number {
            v->Number_0.u64_val
        } else {
            None
        }
    }

    fn from_value(value: Value) -> (r: Option<u64>) {
        match value {
            Value::Number(n) => n.get_u64(),
            _ => None,
        }
    }
}

impl FromValueBehavior for u128 {
    type Item = u128;

    open spec fn from_value_ok(v: Value) -> bool {
        true
    }

    open spec fn from_value_some(v: Value) -> bool {
        v is Number && v->Number_0.u128_val is Some
    }

    open spec fn from_value_exact() -> bool {
        true
    }

    open spec fn from_value_model(v: Value) -> Option<u128> {
        if v is Number {
            v->Number_0.u128_val
        } else {
            None
        }
    }

    fn from_value(value: Value) -> (r: Option<u128>) {
        match value {
            Value::Number(n) => n.get_u128(),
            _ => None,
        }
    }
}

impl FromValueBehavior for bool {
    type Item = bool;

    open spec fn from_value_ok(v: Value) -> bool {
        true
    }

    open spec fn from_value_some(v: Value) -> bool {
        v is Boolean
    }

    open spec fn from_value_exact() -> bool {
        true
    }

    open spec fn from_value_model(v: Value) -> Option<bool> {
        if v is Boolean {
            Some(v->Boolean_0)
        } else {
            None
        }
    }

    fn from_value(value: Value) -> (r: Option<bool>) {
        match value {
            Value::Boolean(b) => Some(b),
            _ => None,
        }
    }
}

impl FromValueBehavior for String {
    type Item = String;

    open spec fn from_value_ok(v: Value) -> bool {
        true
    }

    open spec fn from_value_some(v: Value) -> bool {
        v is String
    }

    open spec fn from_value_exact() -> bool {
        false
    }

    open spec fn from_value_model(v: Value) -> Option<String> {
        arbitrary()
    }

    fn from_value(value: Value) -> (r: Option<String>)
        ensures
            r is Some ==> r.unwrap()@ == value->String_0@,
    {
        match value {
            Value::String(s) => Some(s.value),
            _ => None,
        }
    }
}

impl<T: FromValueBehavior> FromValueBehavior for Vec<T> {
    type Item = Vec<T::Item>;

    open spec fn from_value_ok(v: Value) -> bool {
        v is Array ==> forall|i: int|
            0 <= i < v->Array_0.values@.len() ==> {
                &&& T::from_value_ok(#[trigger] v->Array_0.values@[i])
                &&& T::from_value_some(v->Array_0.values@[i])
            }
    }

    open spec fn from_value_some(v: Value) -> bool {
        v is Array
    }

    open spec fn from_value_exact() -> bool {
        false
    }

    open spec fn from_value_model(v: Value) -> Option<Vec<T::Item>> {
        arbitrary()
    }

    fn from_value(value: Value) -> (r: Option<Vec<T::Item>>)
        ensures
            r is Some ==> r.unwrap()@.len() == value->Array_0.values@.len(),
            (r is Some && T::from_value_exact()) ==> forall|i: int|
                0 <= i < r.unwrap()@.len() ==> #[trigger] r.unwrap()@[i] == T::from_value_model(
                    value->Array_0.values@[i],
                ).unwrap(),
    {
        match value {
            Value::Array(array) => {
                let mut values = array.values;
                let ghost orig = values@;
                let mut out: Vec<T::Item> = Vec::new();
                while values.len() > 0
                    invariant
                        out@.len() + values@.len() == orig.len(),
                        values@ =~= orig.skip(out@.len() as int),
                        forall|m: int|
                            0 <= m < orig.len() ==> {
                                &&& T::from_value_ok(#[trigger] orig[m])
                                &&& T::from_value_some(orig[m])
                            },
                        T::from_value_exact() ==> forall|m: int|
                            0 <= m < out@.len() ==> #[trigger] out@[m] == T::from_value_model(
                                orig[m],
                            ).unwrap(),
                    decreases values@.len(),
                {
                    let element = values.remove(0);
                    proof {
                        assert(element == orig[out@.len() as int]);
                        assert(values@ =~= orig.skip(out@.len() + 1int));
                    }
                    let converted = T::from_value(element);
                    out.push(converted.unwrap());
                }
                Some(out)
            },
            _ => None,
        }
    }
}

impl<T: FromValueBehavior> FromValueBehavior for Option<T> {
    type Item = Option<T::Item>;

    open spec fn from_value_ok(v: Value) -> bool {
        v is Null || T::from_value_ok(v)
    }

    open spec fn from_value_some(v: Value) -> bool {
        !(v is Null)
    }

    open spec fn from_value_exact() -> bool {
        false
    }

    open spec fn from_value_model(v: Value) -> Option<Option<T::Item>> {
        arbitrary()
    }

    fn from_value(value: Value) -> (r: Option<Option<T::Item>>) {
        match value {
            Value::Null => None,
            _ => Some(T::from_value(value)),
        }
    }
}

impl<T: FromValueBehavior> FromValueBehavior for HashMap<String, T> {
    type Item = HashMap<String, T::Item>;

    open spec fn from_value_ok(v: Value) -> bool {
        v is Object ==> forall|i: int|
            0 <= i < v->Object_0.entries@.len() ==> {
                &&& T::from_value_ok((#[trigger] v->Object_0.entries@[i]).1)
                &&& T::from_value_some(v->Object_0.entries@[i].1)
            }
    }

    open spec fn from_value_some(v: Value) -> bool {
        v is Object
    }

    open spec fn from_value_exact() -> bool {
        false
    }

    open spec fn from_value_model(v: Value) -> Option<HashMap<String, T::Item>> {
        arbitrary()
    }

    fn from_value(value: Value) -> (r: Option<HashMap<String, T::Item>>) {
        match value {
            Value::Object(object) => {
                let mut entries = object.entries;
                let ghost orig = entries@;
                let mut out: HashMap<String, T::Item> = HashMap::new();
                let ghost mut done: int = 0;
                while entries.len() > 0
                    invariant
                        0 <= done,
                        done + entries@.len() == orig.len(),
                        entries@ =~= orig.skip(done),
                        forall|m: int|
                            0 <= m < orig.len() ==> {
                                &&& T::from_value_ok((#[trigger] orig[m]).1)
                                &&& T::from_value_some(orig[m].1)
                            },
                    decreases entries@.len(),
                {
                    let entry = entries.remove(0);
                    proof {
                        assert(entry == orig[done]);
                        assert(entries@ =~= orig.skip(done + 1));
                    }
                    let key = entry.0.as_string();
                    let converted = T::from_value(entry.1);
                    out.insert(key, converted.unwrap());
                    proof {
                        done = done + 1;
                    }
                }
                Some(out)
            },
            _ => None,
        }
    }
}

impl<T: FromValueBehavior> FromValueBehavior for BTreeMap<String, T> {
    type Item = BTreeMap<String, T::Item>;

    open spec fn from_value_ok(v: Value) -> bool {
        v is Object ==> forall|i: int|
            0 <= i < v->Object_0.entries@.len() ==> {
                &&& T::from_value_ok((#[trigger] v->Object_0.entries@[i]).1)
                &&& T::from_value_some(v->Object_0.entries@[i].1)
            }
    }

    open spec fn from_value_some(v: Value) -> bool {
        v is Object
    }

    open spec fn from_value_exact() -> bool {
        false
    }

    open spec fn from_value_model(v: Value) -> Option<BTreeMap<String, T::Item>> {
        arbitrary()
    }

    fn from_value(value: Value) -> (r: Option<BTreeMap<String, T::Item>>) {
        match value {
            Value::Object(object) => {
                let mut entries = object.entries;
                let ghost orig = entries@;
                let mut out: BTreeMap<String, T::Item> = BTreeMap::new();
                let ghost mut done: int = 0;
                while entries.len() > 0
                    invariant
                        0 <= done,
                        done + entries@.len() == orig.len(),
                        entries@ =~= orig.skip(done),
                        forall|m: int|
                            0 <= m < orig.len() ==> {
                                &&& T::from_value_ok((#[trigger] orig[m]).1)
                                &&& T::from_value_some(orig[m].1)
                            },
                    decreases entries@.len(),
                {
                    let entry = entries.remove(0);
                    proof {
                        assert(entry == orig[done]);
                        assert(entries@ =~= orig.skip(done + 1));
                    }
                    let key = entry.0.as_string();
                    let converted = T::from_value(entry.1);
                    out.insert(key, converted.unwrap());
                    proof {
                        done = done + 1;
                    }
                }
                Some(out)
            },
            _ => None,
        }
    }
}

} // verus!
