//! The method surface of `Value`: container access that dispatches on the
//! variant, and the numeric, string and datetime capabilities delegated to
//! the payload.
use crate::array::Array;
use crate::datetime::{add_duration_spec, duration_between_spec, subtract_duration_spec, CivilDate,
    DateTime, Duration, UtcMoment, UtcZone, WallTime, ymd_valid, secs_of_civil};
use crate::number::{Number, NumberType};
use crate::object::Object;
use crate::stringb::{StringB, StringBehavior};
use crate::traits::{ToValueBehavior, ValueKeyBehavior};
use crate::value::{entry_index, model_insert, model_lookup, value_model, Value, ValueModel,
    keys_of, obj_wf};
use crate::value_key::{KeyModel, ValueKey};
use serde_json::Number as JsonNumber;
use vstd::prelude::*;

verus! {

impl Value {
    /// The value an object holds at a key, or an array at an index; only
    /// objects and arrays can be asked.
    pub fn get<T: ValueKeyBehavior>(&self, key: T) -> (r: Option<&Value>)
        requires
            self is Object || self is Array,
        ensures
            self is Object ==> match r {
                Some(v) => model_lookup(self->Object_0@.entries, key.key_model()) == Some(
                    value_model(*v),
                ),
                None => model_lookup(self->Object_0@.entries, key.key_model()) is None,
            },
            self is Array ==> ({
                let idx = array_index_for::<T>(key.key_model());
                match r {
                    Some(v) => idx < self->Array_0@.len() && value_model(*v)
                        == self->Array_0@[idx as int],
                    None => idx >= self->Array_0@.len(),
                }
            }),
    {
        match self {
            Value::Object(object) => object.get(key),
            Value::Array(array) => array.get(key.as_usize()),
            _ => unreached(),
        }
    }

    /// A mutable borrow of the value an object holds at a key or an array at
    /// an index.
    pub fn get_mut<T: ValueKeyBehavior>(&mut self, key: T) -> (r: Option<&mut Value>)
        requires
            (*old(self)) is Object || (*old(self)) is Array,
        ensures
            (*old(self)) is Object ==> match model_lookup(
                (*old(self))->Object_0@.entries,
                key.key_model(),
            ) {
                Some(prev) => {
                    &&& r is Some
                    &&& value_model(*r.unwrap()) == prev
                    &&& (*final(self)) is Object
                    &&& (*final(self))->Object_0.sorted == (*old(self))->Object_0.sorted
                    &&& (*final(self))->Object_0@.entries =~= (*old(self))->Object_0@.entries.update(
                        entry_index((*old(self))->Object_0@.entries, key.key_model()),
                        (key.key_model(), value_model(*final(r.unwrap()))),
                    )
                },
                None => r is None && *final(self) == *old(self),
            },
            (*old(self)) is Array ==> ({
                let idx = array_index_for::<T>(key.key_model());
                if idx < (*old(self))->Array_0@.len() {
                    &&& r is Some
                    &&& value_model(*r.unwrap()) == (*old(self))->Array_0@[idx as int]
                    &&& (*final(self)) is Array
                    &&& (*final(self))->Array_0@ =~= (*old(self))->Array_0@.update(
                        idx as int,
                        value_model(*final(r.unwrap())),
                    )
                } else {
                    r is None && *final(self) == *old(self)
                }
            }),
    {
        match self {
            Value::Object(object) => object.get_mut(key),
            Value::Array(array) => array.get_mut(key.as_usize()),
            _ => unreached(),
        }
    }

    /// Empties an array, an object or a number in place.
    pub fn clean(&mut self)
        requires
            (*old(self)) is Array || (*old(self)) is Object || (*old(self)) is Number,
        ensures
            (*old(self)) is Array ==> (*final(self)) is Array && (*final(self))->Array_0@
                =~= Seq::<ValueModel>::empty(),
            (*old(self)) is Object ==> (*final(self)) is Object && (*final(self))->Object_0.sorted == old(
                self,
            )->Object_0.sorted && (*final(self))->Object_0@.entries.len() == 0,
            (*old(self)) is Number ==> *final(self) == Value::Number(Number::empty_spec()),
    {
        match self {
            Value::Array(array) => {
                array.clean();
            },
            Value::Object(object) => object.clean(),
            Value::Number(number) => number.clean(),
            _ => unreached(),
        }
    }

    /// How many items an array or object holds, or the byte length of a
    /// string.
    pub fn len(&self) -> (r: usize)
        requires
            self is Array || self is Object || self is String,
        ensures
            self is Array ==> r == self->Array_0@.len(),
            self is Object ==> r == self->Object_0@.entries.len(),
            self is String ==> r == crate::stringb::byte_len(self->String_0@) as usize,
    {
        match self {
            Value::Array(array) => array.len(),
            Value::Object(object) => object.len(),
            Value::String(string) => string.len(),
            _ => unreached(),
        }
    }

    /// Whether an array, object or string is empty.
    pub fn is_empty(&self) -> (r: bool)
        requires
            self is Array || self is Object || self is String,
        ensures
            self is Array ==> r == (self->Array_0@.len() == 0),
            self is Object ==> r == (self->Object_0@.entries.len() == 0),
            self is String ==> r == (self->String_0@.len() == 0),
    {
        match self {
            Value::Array(array) => array.is_empty(),
            Value::Object(object) => object.is_empty(),
            Value::String(string) => string.is_empty(),
            _ => unreached(),
        }
    }

    /// Appends a value to an array.
    pub fn push<T: ToValueBehavior>(&mut self, value: T)
        requires
            (*old(self)) is Array,
        ensures
            (*final(self)) is Array,
            T::to_value_exact() ==> (*final(self))->Array_0@ == (*old(self))->Array_0@.push(
                value.to_value_model(),
            ),
    {
        match self {
            Value::Array(array) => array.push(value.to_value()),
            _ => unreached(),
        }
    }

    /// Puts a value at a key of an object and returns what the key held.
    pub fn insert<T: ValueKeyBehavior, V: ToValueBehavior>(&mut self, key: T, value: V) -> (r:
        Option<Value>)
        requires
            (*old(self)) is Object,
        ensures
            (*final(self)) is Object,
            (*final(self))->Object_0.sorted == (*old(self))->Object_0.sorted,
            V::to_value_exact() ==> (*final(self))->Object_0@.entries == model_insert(
                (*old(self))->Object_0@.entries,
                (*old(self))->Object_0.sorted,
                key.key_model(),
                value.to_value_model(),
            ),
            match r {
                Some(prev) => model_lookup((*old(self))->Object_0@.entries, key.key_model()) == Some(
                    value_model(prev),
                ),
                None => model_lookup((*old(self))->Object_0@.entries, key.key_model()) is None,
            },
            obj_wf((*old(self))->Object_0@) ==> obj_wf((*final(self))->Object_0@),
    {
        match self {
            Value::Object(o) => o.insert(key, value.to_value()),
            _ => unreached(),
        }
    }

    /// Removes the entry at a key of an object.
    pub fn remove<T: ValueKeyBehavior>(&mut self, key: &T) -> (r: Option<Value>)
        requires
            (*old(self)) is Object,
        ensures
            (*final(self)) is Object,
            (*final(self))->Object_0.sorted == (*old(self))->Object_0.sorted,
            match r {
                Some(prev) => {
                    &&& model_lookup((*old(self))->Object_0@.entries, key.key_model()) == Some(
                        value_model(prev),
                    )
                    &&& (*final(self))->Object_0@.entries == (*old(self))->Object_0@.entries.remove(
                        entry_index((*old(self))->Object_0@.entries, key.key_model()),
                    )
                },
                None => {
                    &&& model_lookup((*old(self))->Object_0@.entries, key.key_model()) is None
                    &&& *final(self) == *old(self)
                },
            },
    {
        match self {
            Value::Object(o) => o.remove(key),
            _ => unreached(),
        }
    }

    /// Whether an object holds the key.
    pub fn contains_key<T: ValueKeyBehavior>(&self, key: &T) -> (r: bool)
        requires
            self is Object,
        ensures
            r == (model_lookup(self->Object_0@.entries, key.key_model()) is Some),
    {
        match self {
            Value::Object(o) => o.contains_key(key),
            _ => unreached(),
        }
    }

    /// The keys of an object, in iteration order.
    pub fn keys(&self) -> (r: Vec<&ValueKey>)
        requires
            self is Object,
        ensures
            r@.len() == self->Object_0@.entries.len(),
            forall|i: int|
                0 <= i < r@.len() ==> (#[trigger] r@[i])@ == keys_of(self->Object_0@.entries)[i],
    {
        match self {
            Value::Object(o) => o.keys(),
            _ => unreached(),
        }
    }

    /// The values of an object, in iteration order.
    pub fn values(&self) -> (r: Vec<&Value>)
        requires
            self is Object,
        ensures
            r@.len() == self->Object_0@.entries.len(),
            forall|i: int|
                0 <= i < r@.len() ==> value_model(*(#[trigger] r@[i]))
                    == self->Object_0@.entries[i].1,
    {
        match self {
            Value::Object(o) => o.values(),
            _ => unreached(),
        }
    }

    /// Removes and returns the last value of an array.
    pub fn pop(&mut self) -> (r: Option<Value>)
        requires
            (*old(self)) is Array,
        ensures
            (*final(self)) is Array,
            match r {
                Some(v) => {
                    &&& (*old(self))->Array_0@.len() > 0
                    &&& value_model(v) == (*old(self))->Array_0@.last()
                    &&& (*final(self))->Array_0@ == (*old(self))->Array_0@.drop_last()
                },
                None => (*old(self))->Array_0@.len() == 0 && *final(self) == *old(self),
            },
    {
        match self {
            Value::Array(array) => array.pop(),
            _ => unreached(),
        }
    }

    /// Whether a number value holds any populated slot.
    pub fn is_number(&self) -> (r: bool)
        ensures
            r == (self is Number),
    {
        match self {
            Value::Number(_) => true,
            _ => false,
        }
    }

    /// Whether a number value holds an integer slot.
    pub fn is_integer(&self) -> (r: bool)
        ensures
            r == (self is Number && self->Number_0.holds_integer()),
    {
        match self {
            Value::Number(n) => n.is_integer(),
            _ => false,
        }
    }

    /// Whether a number value holds a float slot.
    pub fn is_float(&self) -> (r: bool)
        ensures
            r == (self is Number && (self->Number_0.f32_val is Some
                || self->Number_0.f64_val is Some)),
    {
        match self {
            Value::Number(n) => n.is_float(),
            _ => false,
        }
    }

    /// Whether a number value holds a value below zero.
    pub fn is_signed(&self) -> (r: bool)
        ensures
            r == (self is Number && self->Number_0.holds_negative_value()),
    {
        match self {
            Value::Number(n) => n.is_signed(),
            _ => false,
        }
    }

    /// Whether a number value holds an unsigned slot.
    pub fn is_unsigned(&self) -> (r: bool)
        ensures
            r == (self is Number && (self->Number_0.u8_val is Some
                || self->Number_0.u16_val is Some || self->Number_0.u32_val is Some
                || self->Number_0.u64_val is Some || self->Number_0.u128_val is Some)),
    {
        match self {
            Value::Number(n) => n.is_unsigned(),
            _ => false,
        }
    }

    /// Whether a number value holds zero.
    pub fn is_zero(&self) -> (r: bool)
        ensures
            r == (self is Number && self->Number_0.holds_zero()),
    {
        match self {
            Value::Number(n) => n.is_zero(),
            _ => false,
        }
    }

    /// Whether a number value holds a value above zero.
    pub fn is_positive(&self) -> (r: bool)
        ensures
            r == (self is Number && !self->Number_0.holds_negative_value()
                && !self->Number_0.holds_zero()),
    {
        match self {
            Value::Number(n) => n.is_positive(),
            _ => false,
        }
    }

    /// Whether a number value holds a value below zero and not zero.
    pub fn is_negative(&self) -> (r: bool)
        ensures
            r == (self is Number && self->Number_0.holds_negative_value()
                && !self->Number_0.holds_zero()),
    {
        match self {
            Value::Number(n) => n.is_negative(),
            _ => false,
        }
    }

    /// The tag of the populated slot of a number value; `Unknown` elsewhere.
    pub fn number_type(&self) -> (r: NumberType)
        ensures
            r == if self is Number {
                self->Number_0.number_type_spec()
            } else {
                NumberType::Unknown
            },
    {
        match self {
            Value::Number(n) => n.number_type(),
            _ => NumberType::Unknown,
        }
    }

    /// Stores a float value in a number value's `f32` slot.
    pub fn set_f32(&mut self, value: JsonNumber)
        requires
            (*old(self)) is Number,
        ensures
            *final(self) == Value::Number(
                (Number { f32_val: Some(value), ..(*old(self))->Number_0 }),
            ),
    {
        match self {
            Value::Number(n) => n.set_f32(value),
            _ => unreached(),
        }
    }

    /// Stores a float value in a number value's `f64` slot.
    pub fn set_f64(&mut self, value: JsonNumber)
        requires
            (*old(self)) is Number,
        ensures
            *final(self) == Value::Number(
                (Number { f64_val: Some(value), ..(*old(self))->Number_0 }),
            ),
    {
        match self {
            Value::Number(n) => n.set_f64(value),
            _ => unreached(),
        }
    }

    /// The `f32` slot of a number value.
    pub fn get_f32(&self) -> (r: Option<JsonNumber>)
        requires
            self is Number,
        ensures
            r == self->Number_0.f32_val,
    {
        match self {
            Value::Number(n) => n.get_f32(),
            _ => unreached(),
        }
    }

    /// The `f64` slot of a number value.
    pub fn get_f64(&self) -> (r: Option<JsonNumber>)
        requires
            self is Number,
        ensures
            r == self->Number_0.f64_val,
    {
        match self {
            Value::Number(n) => n.get_f64(),
            _ => unreached(),
        }
    }

    /// The `f32` slot of a number value; the slot must be populated.
    pub fn get_f32_unsafe(&self) -> (r: JsonNumber)
        requires
            self is Number,
            self->Number_0.f32_val is Some,
        ensures
            r == self->Number_0.f32_val.unwrap(),
    {
        match self {
            Value::Number(n) => n.get_f32_unsafe(),
            _ => unreached(),
        }
    }

    /// The `f64` slot of a number value; the slot must be populated.
    pub fn get_f64_unsafe(&self) -> (r: JsonNumber)
        requires
            self is Number,
            self->Number_0.f64_val is Some,
        ensures
            r == self->Number_0.f64_val.unwrap(),
    {
        match self {
            Value::Number(n) => n.get_f64_unsafe(),
            _ => unreached(),
        }
    }

    /// Whether a number value's `f32` slot is populated.
    pub fn is_f32(&self) -> (r: bool)
        ensures
            r == (self is Number && self->Number_0.f32_val is Some),
    {
        match self {
            Value::Number(n) => n.is_f32(),
            _ => false,
        }
    }

    /// Whether a number value's `f64` slot is populated.
    pub fn is_f64(&self) -> (r: bool)
        ensures
            r == (self is Number && self->Number_0.f64_val is Some),
    {
        match self {
            Value::Number(n) => n.is_f64(),
            _ => false,
        }
    }

    pub fn set_u8(&mut self, value: u8)
        requires
            (*old(self)) is Number,
        ensures
            *final(self) == Value::Number((Number { u8_val: Some(value), ..(*old(self))->Number_0 })),
    {
        match self {
            Value::Number(n) => n.set_u8(value),
            _ => unreached(),
        }
    }

    pub fn set_u16(&mut self, value: u16)
        requires
            (*old(self)) is Number,
        ensures
            *final(self) == Value::Number((Number { u16_val: Some(value), ..(*old(self))->Number_0 })),
    {
        match self {
            Value::Number(n) => n.set_u16(value),
            _ => unreached(),
        }
    }

    pub fn set_u32(&mut self, value: u32)
        requires
            (*old(self)) is Number,
        ensures
            *final(self) == Value::Number((Number { u32_val: Some(value), ..(*old(self))->Number_0 })),
    {
        match self {
            Value::Number(n) => n.set_u32(value),
            _ => unreached(),
        }
    }

    pub fn set_u64(&mut self, value: u64)
        requires
            (*old(self)) is Number,
        ensures
            *final(self) == Value::Number((Number { u64_val: Some(value), ..(*old(self))->Number_0 })),
    {
        match self {
            Value::Number(n) => n.set_u64(value),
            _ => unreached(),
        }
    }

    pub fn set_u128(&mut self, value: u128)
        requires
            (*old(self)) is Number,
        ensures
            *final(self) == Value::Number((Number { u128_val: Some(value), ..(*old(self))->Number_0 })),
    {
        match self {
            Value::Number(n) => n.set_u128(value),
            _ => unreached(),
        }
    }

    pub fn set_i8(&mut self, value: i8)
        requires
            (*old(self)) is Number,
        ensures
            *final(self) == Value::Number((Number { i8_val: Some(value), ..(*old(self))->Number_0 })),
    {
        match self {
            Value::Number(n) => n.set_i8(value),
            _ => unreached(),
        }
    }

    pub fn set_i16(&mut self, value: i16)
        requires
            (*old(self)) is Number,
        ensures
            *final(self) == Value::Number((Number { i16_val: Some(value), ..(*old(self))->Number_0 })),
    {
        match self {
            Value::Number(n) => n.set_i16(value),
            _ => unreached(),
        }
    }

    pub fn set_i32(&mut self, value: i32)
        requires
            (*old(self)) is Number,
        ensures
            *final(self) == Value::Number((Number { i32_val: Some(value), ..(*old(self))->Number_0 })),
    {
        match self {
            Value::Number(n) => n.set_i32(value),
            _ => unreached(),
        }
    }

    pub fn set_i64(&mut self, value: i64)
        requires
            (*old(self)) is Number,
        ensures
            *final(self) == Value::Number((Number { i64_val: Some(value), ..(*old(self))->Number_0 })),
    {
        match self {
            Value::Number(n) => n.set_i64(value),
            _ => unreached(),
        }
    }

    pub fn set_i128(&mut self, value: i128)
        requires
            (*old(self)) is Number,
        ensures
            *final(self) == Value::Number((Number { i128_val: Some(value), ..(*old(self))->Number_0 })),
    {
        match self {
            Value::Number(n) => n.set_i128(value),
            _ => unreached(),
        }
    }

    pub fn get_u8(&self) -> (r: Option<u8>)
        requires
            self is Number,
        ensures
            r == self->Number_0.u8_val,
    {
        match self {
            Value::Number(n) => n.get_u8(),
            _ => unreached(),
        }
    }

    pub fn get_u16(&self) -> (r: Option<u16>)
        requires
            self is Number,
        ensures
            r == self->Number_0.u16_val,
    {
        match self {
            Value::Number(n) => n.get_u16(),
            _ => unreached(),
        }
    }

    pub fn get_u32(&self) -> (r: Option<u32>)
        requires
            self is Number,
        ensures
            r == self->Number_0.u32_val,
    {
        match self {
            Value::Number(n) => n.get_u32(),
            _ => unreached(),
        }
    }

    pub fn get_u64(&self) -> (r: Option<u64>)
        requires
            self is Number,
        ensures
            r == self->Number_0.u64_val,
    {
        match self {
            Value::Number(n) => n.get_u64(),
            _ => unreached(),
        }
    }

    pub fn get_u128(&self) -> (r: Option<u128>)
        requires
            self is Number,
        ensures
            r == self->Number_0.u128_val,
    {
        match self {
            Value::Number(n) => n.get_u128(),
            _ => unreached(),
        }
    }

    pub fn get_i8(&self) -> (r: Option<i8>)
        requires
            self is Number,
        ensures
            r == self->Number_0.i8_val,
    {
        match self {
            Value::Number(n) => n.get_i8(),
            _ => unreached(),
        }
    }

    pub fn get_i16(&self) -> (r: Option<i16>)
        requires
            self is Number,
        ensures
            r == self->Number_0.i16_val,
    {
        match self {
            Value::Number(n) => n.get_i16(),
            _ => unreached(),
        }
    }

    pub fn get_i32(&self) -> (r: Option<i32>)
        requires
            self is Number,
        ensures
            r == self->Number_0.i32_val,
    {
        match self {
            Value::Number(n) => n.get_i32(),
            _ => unreached(),
        }
    }

    pub fn get_i64(&self) -> (r: Option<i64>)
        requires
            self is Number,
        ensures
            r == self->Number_0.i64_val,
    {
        match self {
            Value::Number(n) => n.get_i64(),
            _ => unreached(),
        }
    }

    pub fn get_i128(&self) -> (r: Option<i128>)
        requires
            self is Number,
        ensures
            r == self->Number_0.i128_val,
    {
        match self {
            Value::Number(n) => n.get_i128(),
            _ => unreached(),
        }
    }

    pub fn get_u8_unsafe(&self) -> (r: u8)
        requires
            self is Number,
            self->Number_0.u8_val is Some,
        ensures
            r == self->Number_0.u8_val.unwrap(),
    {
        match self {
            Value::Number(n) => n.get_u8_unsafe(),
            _ => unreached(),
        }
    }

    pub fn get_u16_unsafe(&self) -> (r: u16)
        requires
            self is Number,
            self->Number_0.u16_val is Some,
        ensures
            r == self->Number_0.u16_val.unwrap(),
    {
        match self {
            Value::Number(n) => n.get_u16_unsafe(),
            _ => unreached(),
        }
    }

    pub fn get_u32_unsafe(&self) -> (r: u32)
        requires
            self is Number,
            self->Number_0.u32_val is Some,
        ensures
            r == self->Number_0.u32_val.unwrap(),
    {
        match self {
            Value::Number(n) => n.get_u32_unsafe(),
            _ => unreached(),
        }
    }

    pub fn get_u64_unsafe(&self) -> (r: u64)
        requires
            self is Number,
            self->Number_0.u64_val is Some,
        ensures
            r == self->Number_0.u64_val.unwrap(),
    {
        match self {
            Value::Number(n) => n.get_u64_unsafe(),
            _ => unreached(),
        }
    }

    pub fn get_u128_unsafe(&self) -> (r: u128)
        requires
            self is Number,
            self->Number_0.u128_val is Some,
        ensures
            r == self->Number_0.u128_val.unwrap(),
    {
        match self {
            Value::Number(n) => n.get_u128_unsafe(),
            _ => unreached(),
        }
    }

    pub fn get_i8_unsafe(&self) -> (r: i8)
        requires
            self is Number,
            self->Number_0.i8_val is Some,
        ensures
            r == self->Number_0.i8_val.unwrap(),
    {
        match self {
            Value::Number(n) => n.get_i8_unsafe(),
            _ => unreached(),
        }
    }

    pub fn get_i16_unsafe(&self) -> (r: i16)
        requires
            self is Number,
            self->Number_0.i16_val is Some,
        ensures
            r == self->Number_0.i16_val.unwrap(),
    {
        match self {
            Value::Number(n) => n.get_i16_unsafe(),
            _ => unreached(),
        }
    }

    pub fn get_i32_unsafe(&self) -> (r: i32)
        requires
            self is Number,
            self->Number_0.i32_val is Some,
        ensures
            r == self->Number_0.i32_val.unwrap(),
    {
        match self {
            Value::Number(n) => n.get_i32_unsafe(),
            _ => unreached(),
        }
    }

    pub fn get_i64_unsafe(&self) -> (r: i64)
        requires
            self is Number,
            self->Number_0.i64_val is Some,
        ensures
            r == self->Number_0.i64_val.unwrap(),
    {
        match self {
            Value::Number(n) => n.get_i64_unsafe(),
            _ => unreached(),
        }
    }

    pub fn get_i128_unsafe(&self) -> (r: i128)
        requires
            self is Number,
            self->Number_0.i128_val is Some,
        ensures
            r == self->Number_0.i128_val.unwrap(),
    {
        match self {
            Value::Number(n) => n.get_i128_unsafe(),
            _ => unreached(),
        }
    }

    pub fn is_u8(&self) -> (r: bool)
        ensures
            r == (self is Number && self->Number_0.u8_val is Some),
    {
        match self {
            Value::Number(n) => n.is_u8(),
            _ => false,
        }
    }

    pub fn is_u16(&self) -> (r: bool)
        ensures
            r == (self is Number && self->Number_0.u16_val is Some),
    {
        match self {
            Value::Number(n) => n.is_u16(),
            _ => false,
        }
    }

    pub fn is_u32(&self) -> (r: bool)
        ensures
            r == (self is Number && self->Number_0.u32_val is Some),
    {
        match self {
            Value::Number(n) => n.is_u32(),
            _ => false,
        }
    }

    pub fn is_u64(&self) -> (r: bool)
        ensures
            r == (self is Number && self->Number_0.u64_val is Some),
    {
        match self {
            Value::Number(n) => n.is_u64(),
            _ => false,
        }
    }

    pub fn is_u128(&self) -> (r: bool)
        ensures
            r == (self is Number && self->Number_0.u128_val is Some),
    {
        match self {
            Value::Number(n) => n.is_u128(),
            _ => false,
        }
    }

    pub fn is_i8(&self) -> (r: bool)
        ensures
            r == (self is Number && self->Number_0.i8_val is Some),
    {
        match self {
            Value::Number(n) => n.is_i8(),
            _ => false,
        }
    }

    pub fn is_i16(&self) -> (r: bool)
        ensures
            r == (self is Number && self->Number_0.i16_val is Some),
    {
        match self {
            Value::Number(n) => n.is_i16(),
            _ => false,
        }
    }

    pub fn is_i32(&self) -> (r: bool)
        ensures
            r == (self is Number && self->Number_0.i32_val is Some),
    {
        match self {
            Value::Number(n) => n.is_i32(),
            _ => false,
        }
    }

    pub fn is_i64(&self) -> (r: bool)
        ensures
            r == (self is Number && self->Number_0.i64_val is Some),
    {
        match self {
            Value::Number(n) => n.is_i64(),
            _ => false,
        }
    }

    pub fn is_i128(&self) -> (r: bool)
        ensures
            r == (self is Number && self->Number_0.i128_val is Some),
    {
        match self {
            Value::Number(n) => n.is_i128(),
            _ => false,
        }
    }
}

/// The index a key denotes, when it denotes one.
pub open spec fn index_of_key(k: KeyModel) -> usize {
    match k {
        KeyModel::Index(n) => n,
        KeyModel::Text(_) => 0,
    }
}

/// The array index a key of the given type reaches: its index for index-like
/// keys, the front otherwise.
pub open spec fn array_index_for<T: ValueKeyBehavior>(k: KeyModel) -> usize {
    if T::usize_like() {
        index_of_key(k)
    } else {
        0
    }
}


impl crate::array::ArrayBehavior for Value {
    open spec fn items_ok(&self) -> bool {
        self is Array
    }

    open spec fn items(&self) -> Seq<ValueModel> {
        match self {
            Value::Array(a) => a@,
            _ => Seq::empty(),
        }
    }

    fn pop(&mut self) -> (r: Option<Value>) {
        Value::pop(self)
    }
}

impl StringBehavior for Value {
    open spec fn string_ok(&self) -> bool {
        self is String
    }

    open spec fn chars_spec(&self) -> Seq<char> {
        match self {
            Value::String(s) => s@,
            _ => Seq::empty(),
        }
    }

    fn as_bytes(&self) -> (r: &[u8]) {
        match self {
            Value::String(s) => s.as_bytes(),
            _ => unreached(),
        }
    }

    fn as_str(&self) -> (r: &str) {
        match self {
            Value::String(s) => s.as_str(),
            _ => unreached(),
        }
    }

    fn as_string(&self) -> (r: String) {
        match self {
            Value::String(s) => StringBehavior::as_string(s),
            _ => unreached(),
        }
    }

    fn extract(&self) -> (r: String) {
        match self {
            Value::String(s) => s.extract(),
            _ => unreached(),
        }
    }

    fn to_uppercase(&self) -> (r: Self) {
        match self {
            Value::String(s) => Value::String(s.to_uppercase()),
            _ => unreached(),
        }
    }

    fn to_lowercase(&self) -> (r: Self) {
        match self {
            Value::String(s) => Value::String(s.to_lowercase()),
            _ => unreached(),
        }
    }

    fn trim(&self) -> (r: Self) {
        match self {
            Value::String(s) => Value::String(s.trim()),
            _ => unreached(),
        }
    }

    fn replace(&self, from: &str, to: &str) -> (r: Self) {
        match self {
            Value::String(s) => Value::String(s.replace(from, to)),
            _ => unreached(),
        }
    }

    fn concat(&self, other: &str) -> (r: Self) {
        match self {
            Value::String(s) => Value::String(s.concat(other)),
            _ => unreached(),
        }
    }

    fn from_utf8(value: Vec<u8>) -> (r: Self) {
        Value::String(StringB::from_utf8(value))
    }
}

impl Value {
    /// The calendar date of a datetime value, when it is a bare date.
    pub fn as_date(&self) -> (r: Option<&CivilDate>)
        requires
            self is DateTime,
        ensures
            match r {
                Some(d) => self->DateTime_0 is Date && *d == self->DateTime_0->Date_0,
                None => !(self->DateTime_0 is Date),
            },
    {
        match self {
            Value::DateTime(dt) => dt.as_date(),
            _ => unreached(),
        }
    }

    /// The wall time of a datetime value, when it is a bare time.
    pub fn as_time(&self) -> (r: Option<&WallTime>)
        requires
            self is DateTime,
        ensures
            match r {
                Some(t) => self->DateTime_0 is Time && *t == self->DateTime_0->Time_0,
                None => !(self->DateTime_0 is Time),
            },
    {
        match self {
            Value::DateTime(dt) => dt.as_time(),
            _ => unreached(),
        }
    }

    /// The instant of a datetime value, when it is a full date-time.
    pub fn as_date_time(&self) -> (r: Option<&UtcMoment>)
        requires
            self is DateTime,
        ensures
            match r {
                Some(m) => self->DateTime_0 is DateTime && *m == self->DateTime_0->DateTime_0,
                None => !(self->DateTime_0 is DateTime),
            },
    {
        match self {
            Value::DateTime(dt) => dt.as_date_time(),
            _ => unreached(),
        }
    }

    /// The year of a datetime value's date or instant.
    pub fn year(&self) -> (r: Option<i32>)
        requires
            self is DateTime,
        ensures
            r == match self->DateTime_0 {
                DateTime::Date(d) => Some(d.year),
                DateTime::DateTime(m) => Some(m.date.year),
                DateTime::Time(_) => None::<i32>,
            },
    {
        match self {
            Value::DateTime(dt) => dt.year(),
            _ => unreached(),
        }
    }

    /// The month of a datetime value's date or instant.
    pub fn month(&self) -> (r: Option<u32>)
        requires
            self is DateTime,
        ensures
            r == match self->DateTime_0 {
                DateTime::Date(d) => Some(d.month),
                DateTime::DateTime(m) => Some(m.date.month),
                DateTime::Time(_) => None::<u32>,
            },
    {
        match self {
            Value::DateTime(dt) => dt.month(),
            _ => unreached(),
        }
    }

    /// The day of a datetime value's date or instant.
    pub fn day(&self) -> (r: Option<u32>)
        requires
            self is DateTime,
        ensures
            r == match self->DateTime_0 {
                DateTime::Date(d) => Some(d.day),
                DateTime::DateTime(m) => Some(m.date.day),
                DateTime::Time(_) => None::<u32>,
            },
    {
        match self {
            Value::DateTime(dt) => dt.day(),
            _ => unreached(),
        }
    }

    /// The epoch seconds of a datetime value's instant.
    pub fn timestamp(&self) -> (r: Option<i64>)
        requires
            self is DateTime,
        ensures
            r == match self->DateTime_0 {
                DateTime::DateTime(m) => Some(m.secs),
                _ => None::<i64>,
            },
    {
        match self {
            Value::DateTime(dt) => dt.timestamp(),
            _ => unreached(),
        }
    }

    /// The ISO 8601 text of a datetime value.
    pub fn to_iso8601(&self) -> (r: String)
        requires
            self is DateTime,
        ensures
            r@ == crate::datetime::dt_iso8601_chars(self->DateTime_0),
    {
        match self {
            Value::DateTime(dt) => dt.to_iso8601(),
            _ => unreached(),
        }
    }

    /// The RFC 3339 text of a datetime value's instant; empty otherwise.
    pub fn to_rfc3339(&self) -> (r: String)
        requires
            self is DateTime,
        ensures
            r@ == match self->DateTime_0 {
                DateTime::DateTime(m) => crate::datetime::rfc3339_chars(m),
                _ => Seq::<char>::empty(),
            },
    {
        match self {
            Value::DateTime(dt) => dt.to_rfc3339(),
            _ => unreached(),
        }
    }

    /// The datetime value a span later, when the payload supports it.
    pub fn add_duration(&self, duration: Duration) -> (r: Option<Value>)
        requires
            self is DateTime,
        ensures
            match add_duration_spec(self->DateTime_0, duration) {
                Some(d) => r == Some(Value::DateTime(d)),
                None => r is None,
            },
    {
        match self {
            Value::DateTime(dt) => match dt.add_duration(duration) {
                Some(shifted) => Some(Value::DateTime(shifted)),
                None => None,
            },
            _ => unreached(),
        }
    }

    /// The datetime value a span earlier, when the payload supports it.
    pub fn subtract_duration(&self, duration: Duration) -> (r: Option<Value>)
        requires
            self is DateTime,
        ensures
            match subtract_duration_spec(self->DateTime_0, duration) {
                Some(d) => r == Some(Value::DateTime(d)),
                None => r is None,
            },
    {
        match self {
            Value::DateTime(dt) => match dt.subtract_duration(duration) {
                Some(shifted) => Some(Value::DateTime(shifted)),
                None => None,
            },
            _ => unreached(),
        }
    }

    /// The span between two datetime values of the same shape.
    pub fn duration_between(&self, other: &Value) -> (r: Option<Duration>)
        requires
            self is DateTime,
            other is DateTime,
        ensures
            r == duration_between_spec(self->DateTime_0, other->DateTime_0),
    {
        match (self, other) {
            (Value::DateTime(a), Value::DateTime(b)) => a.duration_between(b),
            _ => unreached(),
        }
    }

    /// A date value built from components, which must name a calendar date.
    pub fn from_ymd_opt(year: i32, month: u32, day: u32) -> (r: Value)
        requires
            ymd_valid(year, month, day),
        ensures
            r == Value::DateTime(DateTime::Date(CivilDate { year, month, day })),
    {
        Value::DateTime(DateTime::from_ymd_opt(year, month, day))
    }

    /// An instant value built from components, which must name a date and a
    /// time of day.
    pub fn with_ymd_and_hms(
        year: i32,
        month: u32,
        day: u32,
        hour: u32,
        min: u32,
        sec: u32,
    ) -> (r: Value)
        requires
            ymd_valid(year, month, day),
            hour <= 23,
            min <= 59,
            sec <= 59,
        ensures
            r == Value::DateTime(
                DateTime::DateTime(
                    UtcMoment {
                        secs: secs_of_civil(year, month, day, hour, min, sec).unwrap(),
                        nanosecond: 0u32,
                        date: CivilDate { year, month, day },
                        time: WallTime { hour, minute: min, second: sec, nanosecond: 0u32 },
                    },
                ),
            ),
    {
        Value::DateTime(DateTime::with_ymd_and_hms(year, month, day, hour, min, sec))
    }

    /// A date value built from components; `None` when they name no date.
    pub fn try_from_ymd(year: i32, month: u32, day: u32) -> (r: Option<Value>)
        ensures
            r == if ymd_valid(year, month, day) {
                Some(Value::DateTime(DateTime::Date(CivilDate { year, month, day })))
            } else {
                None::<Value>
            },
    {
        match DateTime::try_from_ymd(year, month, day) {
            Some(d) => Some(Value::DateTime(d)),
            None => None,
        }
    }

    /// The instant value the clock shows now: its fraction stays below two
    /// billion nanoseconds, and its civil components are the calendar's
    /// reading of its seconds.
    pub fn now() -> (r: Value)
        ensures
            r is DateTime,
            r->DateTime_0 is DateTime,
            r->DateTime_0->DateTime_0.nanosecond < 2000000000,
            crate::datetime::civil_of_secs(r->DateTime_0->DateTime_0.secs) is Some
                ==> crate::datetime::civil_of_secs(r->DateTime_0->DateTime_0.secs) == Some(
                (r->DateTime_0->DateTime_0.date, r->DateTime_0->DateTime_0.time),
            ),
    {
        Value::DateTime(DateTime::now())
    }
}

} // verus!
