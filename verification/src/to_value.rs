//! The `ToValueBehavior` implementations: how native shapes embed as values.
use crate::array::Array;
use crate::datetime::DateTime;
use crate::number::Number;
use crate::object::Object;
use crate::stringb::StringB;
use crate::traits::{PrimitiveType, ToValueBehavior, ValueKeyBehavior};
use crate::value_key::ValueKey as ValueKeyType;
use crate::value::{array_model, entries_model, value_model, Value, ValueModel};
use crate::value_key::ValueKey;
use std::collections::BTreeMap;
use std::collections::HashMap;
use vstd::prelude::*;

verus! {

impl ToValueBehavior for Value {
    open spec fn to_value_exact() -> bool {
        true
    }

    open spec fn to_value_model(&self) -> ValueModel {
        value_model(*self)
    }

    fn to_value(&self) -> (r: Value) {
        self.clone()
    }
}

impl ToValueBehavior for String {
    open spec fn to_value_exact() -> bool {
        true
    }

    open spec fn to_value_model(&self) -> ValueModel {
        ValueModel::Text(self@)
    }

    fn to_value(&self) -> (r: Value) {
        Value::String(StringB { value: self.clone() })
    }
}

impl ToValueBehavior for &str {
    open spec fn to_value_exact() -> bool {
        true
    }

    open spec fn to_value_model(&self) -> ValueModel {
        ValueModel::Text(self@)
    }

    fn to_value(&self) -> (r: Value) {
        Value::String(StringB { value: (*self).to_owned() })
    }
}

impl ToValueBehavior for bool {
    open spec fn to_value_exact() -> bool {
        true
    }

    open spec fn to_value_model(&self) -> ValueModel {
        ValueModel::Flag(*self)
    }

    fn to_value(&self) -> (r: Value) {
        Value::Boolean(*self)
    }
}

impl ToValueBehavior for StringB {
    open spec fn to_value_exact() -> bool {
        true
    }

    open spec fn to_value_model(&self) -> ValueModel {
        ValueModel::Text(self@)
    }

    fn to_value(&self) -> (r: Value) {
        Value::String(self.clone())
    }
}

impl ToValueBehavior for Array {
    open spec fn to_value_exact() -> bool {
        true
    }

    open spec fn to_value_model(&self) -> ValueModel {
        ValueModel::List(self@)
    }

    fn to_value(&self) -> (r: Value) {
        Value::Array(self.clone())
    }
}

impl ToValueBehavior for Object {
    open spec fn to_value_exact() -> bool {
        true
    }

    open spec fn to_value_model(&self) -> ValueModel {
        ValueModel::Record(self@)
    }

    fn to_value(&self) -> (r: Value) {
        Value::Object(self.clone())
    }
}

impl ToValueBehavior for Number {
    open spec fn to_value_exact() -> bool {
        true
    }

    open spec fn to_value_model(&self) -> ValueModel {
        ValueModel::Num(*self)
    }

    fn to_value(&self) -> (r: Value) {
        Value::Number(self.clone())
    }
}

impl ToValueBehavior for DateTime {
    open spec fn to_value_exact() -> bool {
        true
    }

    open spec fn to_value_model(&self) -> ValueModel {
        ValueModel::Moment(*self)
    }

    fn to_value(&self) -> (r: Value) {
        Value::DateTime(*self)
    }
}

impl<T: ToValueBehavior> ToValueBehavior for Option<T> {
    open spec fn to_value_exact() -> bool {
        T::to_value_exact()
    }

    open spec fn to_value_model(&self) -> ValueModel {
        match self {
            Some(value) => value.to_value_model(),
            None => ValueModel::Nothing,
        }
    }

    fn to_value(&self) -> (r: Value) {
        match self {
            Some(value) => value.to_value(),
            None => Value::Null,
        }
    }
}

impl<V: ToValueBehavior> ToValueBehavior for Vec<V> {
    open spec fn to_value_exact() -> bool {
        V::to_value_exact()
    }

    open spec fn to_value_model(&self) -> ValueModel {
        ValueModel::List(Seq::new(self@.len(), |i: int| self@[i].to_value_model()))
    }

    fn to_value(&self) -> (r: Value)
        ensures
            r is Array,
    {
        let mut values: Vec<Value> = Vec::new();
        let mut i: usize = 0;
        while i < self.len()
            invariant
                0 <= i <= self@.len(),
                values@.len() == i,
                V::to_value_exact() ==> forall|m: int|
                    0 <= m < i ==> value_model(#[trigger] values@[m]) == self@[m].to_value_model(),
            decreases self@.len() - i,
        {
            values.push(self[i].to_value());
            i = i + 1;
        }
        proof {
            crate::value::lemma_array_model(values@);
            if V::to_value_exact() {
                assert(array_model(values@) =~= Seq::new(
                    self@.len(),
                    |m: int| self@[m].to_value_model(),
                ));
            }
        }
        Value::Array(Array { values })
    }
}

impl ToValueBehavior for usize {
    open spec fn to_value_exact() -> bool {
        true
    }

    open spec fn to_value_model(&self) -> ValueModel {
        ValueModel::Num(Number::from_usize_spec(*self))
    }

    fn to_value(&self) -> (r: Value) {
        Value::Number(Number::from(*self))
    }
}

impl<K: ValueKeyBehavior, V: ToValueBehavior> ToValueBehavior for HashMap<K, V> {
    open spec fn to_value_exact() -> bool {
        false
    }

    open spec fn to_value_model(&self) -> ValueModel {
        ValueModel::Record(crate::value::ObjModel { sorted: false, entries: arbitrary() })
    }

    fn to_value(&self) -> (r: Value)
        ensures
            r is Object,
            value_model(r)->Record_0.sorted == false,
            crate::value::obj_wf(value_model(r)->Record_0),
            V::to_value_exact() ==> crate::object::object_holds_map_entries(
                value_model(r)->Record_0.entries,
                self@,
                false,
            ),
    {
        let object = crate::object::object_from_hash_pairs(self);
        Value::Object(object)
    }
}

impl<K: ValueKeyBehavior, V: ToValueBehavior> ToValueBehavior for BTreeMap<K, V> {
    open spec fn to_value_exact() -> bool {
        false
    }

    open spec fn to_value_model(&self) -> ValueModel {
        ValueModel::Record(crate::value::ObjModel { sorted: true, entries: arbitrary() })
    }

    fn to_value(&self) -> (r: Value)
        ensures
            r is Object,
            value_model(r)->Record_0.sorted == true,
            crate::value::obj_wf(value_model(r)->Record_0),
            V::to_value_exact() ==> crate::object::object_holds_map_entries(
                value_model(r)->Record_0.entries,
                self@,
                true,
            ),
    {
        let object = crate::object::object_from_btree_pairs(self);
        Value::Object(object)
    }
}

impl ToValueBehavior for u8 {
    open spec fn to_value_exact() -> bool {
        true
    }

    open spec fn to_value_model(&self) -> ValueModel {
        ValueModel::Num((Number { u8_val: Some(*self), ..Number::empty_spec() }))
    }

    fn to_value(&self) -> (r: Value) {
        Value::Number(Number::from(*self))
    }
}

impl PrimitiveType for u8 {

}

impl ToValueBehavior for u16 {
    open spec fn to_value_exact() -> bool {
        true
    }

    open spec fn to_value_model(&self) -> ValueModel {
        ValueModel::Num((Number { u16_val: Some(*self), ..Number::empty_spec() }))
    }

    fn to_value(&self) -> (r: Value) {
        Value::Number(Number::from(*self))
    }
}

impl PrimitiveType for u16 {

}

impl ToValueBehavior for u32 {
    open spec fn to_value_exact() -> bool {
        true
    }

    open spec fn to_value_model(&self) -> ValueModel {
        ValueModel::Num((Number { u32_val: Some(*self), ..Number::empty_spec() }))
    }

    fn to_value(&self) -> (r: Value) {
        Value::Number(Number::from(*self))
    }
}

impl PrimitiveType for u32 {

}

impl ToValueBehavior for u64 {
    open spec fn to_value_exact() -> bool {
        true
    }

    open spec fn to_value_model(&self) -> ValueModel {
        ValueModel::Num((Number { u64_val: Some(*self), ..Number::empty_spec() }))
    }

    fn to_value(&self) -> (r: Value) {
        Value::Number(Number::from(*self))
    }
}

impl PrimitiveType for u64 {

}

impl ToValueBehavior for u128 {
    open spec fn to_value_exact() -> bool {
        true
    }

    open spec fn to_value_model(&self) -> ValueModel {
        ValueModel::Num((Number { u128_val: Some(*self), ..Number::empty_spec() }))
    }

    fn to_value(&self) -> (r: Value) {
        Value::Number(Number::from(*self))
    }
}

impl PrimitiveType for u128 {

}

impl ToValueBehavior for i8 {
    open spec fn to_value_exact() -> bool {
        true
    }

    open spec fn to_value_model(&self) -> ValueModel {
        ValueModel::Num((Number { i8_val: Some(*self), ..Number::empty_spec() }))
    }

    fn to_value(&self) -> (r: Value) {
        Value::Number(Number::from(*self))
    }
}

impl PrimitiveType for i8 {

}

impl ToValueBehavior for i16 {
    open spec fn to_value_exact() -> bool {
        true
    }

    open spec fn to_value_model(&self) -> ValueModel {
        ValueModel::Num((Number { i16_val: Some(*self), ..Number::empty_spec() }))
    }

    fn to_value(&self) -> (r: Value) {
        Value::Number(Number::from(*self))
    }
}

impl PrimitiveType for i16 {

}

impl ToValueBehavior for i32 {
    open spec fn to_value_exact() -> bool {
        true
    }

    open spec fn to_value_model(&self) -> ValueModel {
        ValueModel::Num((Number { i32_val: Some(*self), ..Number::empty_spec() }))
    }

    fn to_value(&self) -> (r: Value) {
        Value::Number(Number::from(*self))
    }
}

impl PrimitiveType for i32 {

}

impl ToValueBehavior for i64 {
    open spec fn to_value_exact() -> bool {
        true
    }

    open spec fn to_value_model(&self) -> ValueModel {
        ValueModel::Num((Number { i64_val: Some(*self), ..Number::empty_spec() }))
    }

    fn to_value(&self) -> (r: Value) {
        Value::Number(Number::from(*self))
    }
}

impl PrimitiveType for i64 {

}

impl ToValueBehavior for i128 {
    open spec fn to_value_exact() -> bool {
        true
    }

    open spec fn to_value_model(&self) -> ValueModel {
        ValueModel::Num((Number { i128_val: Some(*self), ..Number::empty_spec() }))
    }

    fn to_value(&self) -> (r: Value) {
        Value::Number(Number::from(*self))
    }
}

impl PrimitiveType for i128 {

}

impl PrimitiveType for String {

}

impl PrimitiveType for bool {

}

impl PrimitiveType for StringB {

}

impl PrimitiveType for Array {

}

impl PrimitiveType for DateTime {

}

impl PrimitiveType for Number {

}

impl PrimitiveType for Object {

}

impl PrimitiveType for usize {

}

impl PrimitiveType for ValueKeyType {

}

impl PrimitiveType for &str {

}

impl<V> PrimitiveType for Vec<V> {

}

impl<V> PrimitiveType for Option<V> {

}

impl<K, V> PrimitiveType for HashMap<K, V> {

}

impl<K, V> PrimitiveType for BTreeMap<K, V> {

}

impl From<()> for Value {
    /// The unit value embeds as null.
    fn from(_value: ()) -> (r: Self)
        ensures
            r@ == ValueModel::Nothing,
    {
        Value::Null
    }
}

impl vstd::std_specs::convert::FromSpecImpl<()> for Value {
    open spec fn obeys_from_spec() -> bool {
        true
    }

    open spec fn from_spec(_value: ()) -> Value {
        Value::Null
    }
}

impl<T: ToValueBehavior + PrimitiveType> From<T> for Value {
    /// Every primitive shape embeds by its `to_value`.
    fn from(value: T) -> (r: Self)
        ensures
            T::to_value_exact() ==> r@ == value.to_value_model(),
    {
        value.to_value()
    }
}

impl<T: ToValueBehavior + PrimitiveType> vstd::std_specs::convert::FromSpecImpl<T> for Value {
    open spec fn obeys_from_spec() -> bool {
        false
    }

    open spec fn from_spec(value: T) -> Value {
        arbitrary()
    }
}

} // verus!
