//! `Number`, a box that can hold one value of any of twelve numeric widths.
//! The floating-point slots carry their value opaquely, in an outside type
//! that does the parsing, printing and comparing of floats for this crate.
use crate::text::{dec_int, dec_nat, fmt_i128, fmt_u128, int_text_ok, int_text_val, is_dec_digit,
    read_digits_u128, chars_to_string, str_to_chars};
use crate::Error;
use serde_json::Number as JsonNumber;
use vstd::prelude::*;

verus! {

// ---------------------------------------------------------------------------
// Floating-point values, carried opaquely.
//
// The source rules keep floating point out of this crate, so a float slot
// holds a `JsonNumber`, an outside type that parses, compares and
// prints the value; this crate sees it only through the names below.
// ---------------------------------------------------------------------------

#[verifier::external_type_specification]
#[verifier::external_body]
pub struct ExJsonNumber(JsonNumber);

/// Whether `JsonNumber::from_str` accepts a character sequence.
pub uninterp spec fn float_text_accepted(s: Seq<char>) -> bool;

/// The value `JsonNumber::from_str` yields for an accepted sequence.
pub uninterp spec fn float_value_of(s: Seq<char>) -> JsonNumber;

/// The text `JsonNumber`'s display yields for a value.
pub uninterp spec fn float_text_of(n: JsonNumber) -> Seq<char>;

/// What `JsonNumber`'s equality returns for a pair of values.
pub uninterp spec fn float_box_eq(a: JsonNumber, b: JsonNumber) -> bool;

/// Relies on `serde_json::Number::from_str`: success and value depend on the
/// characters alone. It accepts JSON-shaped number texts whose value fits a
/// finite double, and nothing wider, so no acceptance class is promised here.
#[verifier::external_body]
fn parse_float_text(s: &str) -> (r: Option<JsonNumber>)
    ensures
        r is Some <==> float_text_accepted(s@),
        r is Some ==> r.unwrap() == float_value_of(s@),
{
    s.parse::<JsonNumber>().ok()
}

/// Relies on `JsonNumber`'s display: the text depends on the value
/// alone.
#[verifier::external_body]
fn float_box_text(n: &JsonNumber) -> (r: String)
    ensures
        r@ == float_text_of(*n),
{
    format!("{}", n)
}

/// Relies on `JsonNumber`'s equality: the verdict depends on the two
/// values alone, is symmetric, and equal values compare equal, as the crate
/// never holds a non-finite float.
pub assume_specification[ <JsonNumber as PartialEq>::eq ](
    a: &JsonNumber,
    b: &JsonNumber,
) -> (r: bool)
    ensures
        r == float_box_eq(*a, *b),
        r == float_box_eq(*b, *a),
        *a == *b ==> r,
;

/// Relies on `JsonNumber`'s derived clone, which copies the value.
pub assume_specification[ <JsonNumber as Clone>::clone ](
    n: &JsonNumber,
) -> (r: JsonNumber)
    ensures
        r == *n,
;

/// Equality of optional float boxes, as the slots store them.
pub open spec fn opt_float_eq(a: Option<JsonNumber>, b: Option<JsonNumber>) -> bool {
    match (a, b) {
        (Option::None, Option::None) => true,
        (Option::Some(x), Option::Some(y)) => float_box_eq(x, y),
        _ => false,
    }
}

/// Decides `opt_float_eq`.
fn opt_float_box_eq(a: &Option<JsonNumber>, b: &Option<JsonNumber>) -> (r: bool)
    ensures
        r == opt_float_eq(*a, *b),
{
    match (a, b) {
        (Option::None, Option::None) => true,
        (Option::Some(x), Option::Some(y)) => x.eq(y),
        _ => false,
    }
}

/// Clones an optional float box.
fn opt_float_box_clone(a: &Option<JsonNumber>) -> (r: Option<JsonNumber>)
    ensures
        r == *a,
{
    match a {
        Option::None => None,
        Option::Some(x) => Some(x.clone()),
    }
}

/// The display text of a zero float value: `0.0` or `-0.0`.
pub open spec fn float_text_zero(s: Seq<char>) -> bool {
    s =~= seq!['0', '.', '0'] || s =~= seq!['-', '0', '.', '0']
}

/// The float value prints as zero.
pub open spec fn float_box_zero(n: JsonNumber) -> bool {
    float_text_zero(float_text_of(n))
}

/// The float value prints with a leading minus sign and is not zero.
pub open spec fn float_box_neg(n: JsonNumber) -> bool {
    &&& float_text_of(n).len() > 0
    &&& float_text_of(n)[0] == '-'
    &&& !float_box_zero(n)
}

/// Decides `float_box_zero` by looking at the printed text.
fn float_box_is_zero(n: &JsonNumber) -> (r: bool)
    ensures
        r == float_box_zero(*n),
{
    let text = float_box_text(n);
    let cs = str_to_chars(text.as_str());
    if cs.len() == 3 {
        let r = cs[0] == '0' && cs[1] == '.' && cs[2] == '0';
        proof {
            if r {
                assert(cs@ =~= seq!['0', '.', '0']);
            } else {
                assert(!(cs@ =~= seq!['0', '.', '0']) && !(cs@ =~= seq!['-', '0', '.', '0']));
            }
        }
        r
    } else if cs.len() == 4 {
        let r = cs[0] == '-' && cs[1] == '0' && cs[2] == '.' && cs[3] == '0';
        proof {
            if r {
                assert(cs@ =~= seq!['-', '0', '.', '0']);
            } else {
                assert(!(cs@ =~= seq!['0', '.', '0']) && !(cs@ =~= seq!['-', '0', '.', '0']));
            }
        }
        r
    } else {
        proof {
            assert(!(cs@ =~= seq!['0', '.', '0']) && !(cs@ =~= seq!['-', '0', '.', '0']));
        }
        false
    }
}

/// Decides `float_box_neg` by looking at the printed text.
fn float_box_is_neg(n: &JsonNumber) -> (r: bool)
    ensures
        r == float_box_neg(*n),
{
    let text = float_box_text(n);
    let cs = str_to_chars(text.as_str());
    if cs.len() == 0 {
        return false;
    }
    cs[0] == '-' && !float_box_is_zero(n)
}

// ---------------------------------------------------------------------------
// The Number box.
// ---------------------------------------------------------------------------

/// Identifies which slot of a `Number` is populated.
#[derive(Debug, Clone, PartialEq, Eq, Structural)]
pub enum NumberType {
    U8,
    U16,
    U32,
    U64,
    U128,
    I8,
    I16,
    I32,
    I64,
    I128,
    F32,
    F64,
    Unknown,
}

/// A number that can store one value of each numeric width. At most one slot
/// is meant to be populated at a time; `clean` resets them all.
#[derive(Debug)]
pub struct Number {
    pub u8_val: Option<u8>,
    pub u16_val: Option<u16>,
    pub u32_val: Option<u32>,
    pub u64_val: Option<u64>,
    pub u128_val: Option<u128>,
    pub i8_val: Option<i8>,
    pub i16_val: Option<i16>,
    pub i32_val: Option<i32>,
    pub i64_val: Option<i64>,
    pub i128_val: Option<i128>,
    pub f32_val: Option<JsonNumber>,
    pub f64_val: Option<JsonNumber>,
}

impl PartialEq for Number {
    fn eq(&self, other: &Self) -> (r: bool) {
        self.u8_val == other.u8_val && self.u16_val == other.u16_val && self.u32_val
            == other.u32_val && self.u64_val == other.u64_val && self.u128_val == other.u128_val
            && self.i8_val == other.i8_val && self.i16_val == other.i16_val && self.i32_val
            == other.i32_val && self.i64_val == other.i64_val && self.i128_val == other.i128_val
            && opt_float_box_eq(&self.f32_val, &other.f32_val) && opt_float_box_eq(
            &self.f64_val,
            &other.f64_val,
        )
    }
}

impl vstd::std_specs::cmp::PartialEqSpecImpl for Number {
    open spec fn obeys_eq_spec() -> bool {
        true
    }

    open spec fn eq_spec(&self, other: &Number) -> bool {
        self.same_number(*other)
    }
}

impl Clone for Number {
    fn clone(&self) -> (r: Self)
        ensures
            r == *self,
    {
        Number {
            u8_val: self.u8_val,
            u16_val: self.u16_val,
            u32_val: self.u32_val,
            u64_val: self.u64_val,
            u128_val: self.u128_val,
            i8_val: self.i8_val,
            i16_val: self.i16_val,
            i32_val: self.i32_val,
            i64_val: self.i64_val,
            i128_val: self.i128_val,
            f32_val: opt_float_box_clone(&self.f32_val),
            f64_val: opt_float_box_clone(&self.f64_val),
        }
    }
}

impl Default for Number {
    /// An empty box: no slot populated.
    fn default() -> (r: Self)
        ensures
            r == Number::empty_spec(),
    {
        Number {
            u8_val: None,
            u16_val: None,
            u32_val: None,
            u64_val: None,
            u128_val: None,
            i8_val: None,
            i16_val: None,
            i32_val: None,
            i64_val: None,
            i128_val: None,
            f32_val: None,
            f64_val: None,
        }
    }
}

impl Number {
    /// The number with no slot populated.
    pub open spec fn empty_spec() -> Number {
        Number {
            u8_val: None,
            u16_val: None,
            u32_val: None,
            u64_val: None,
            u128_val: None,
            i8_val: None,
            i16_val: None,
            i32_val: None,
            i64_val: None,
            i128_val: None,
            f32_val: None,
            f64_val: None,
        }
    }

    /// Equality as the box compares: integer slots by value, float slots by
    /// the outside type's equality.
    pub open spec fn same_number(self, other: Number) -> bool {
        &&& self.u8_val == other.u8_val
        &&& self.u16_val == other.u16_val
        &&& self.u32_val == other.u32_val
        &&& self.u64_val == other.u64_val
        &&& self.u128_val == other.u128_val
        &&& self.i8_val == other.i8_val
        &&& self.i16_val == other.i16_val
        &&& self.i32_val == other.i32_val
        &&& self.i64_val == other.i64_val
        &&& self.i128_val == other.i128_val
        &&& opt_float_eq(self.f32_val, other.f32_val)
        &&& opt_float_eq(self.f64_val, other.f64_val)
    }

    /// How many slots are populated.
    pub open spec fn slot_count(self) -> nat {
        (if self.u8_val is Some {
            1nat
        } else {
            0nat
        }) + (if self.u16_val is Some {
            1nat
        } else {
            0nat
        }) + (if self.u32_val is Some {
            1nat
        } else {
            0nat
        }) + (if self.u64_val is Some {
            1nat
        } else {
            0nat
        }) + (if self.u128_val is Some {
            1nat
        } else {
            0nat
        }) + (if self.i8_val is Some {
            1nat
        } else {
            0nat
        }) + (if self.i16_val is Some {
            1nat
        } else {
            0nat
        }) + (if self.i32_val is Some {
            1nat
        } else {
            0nat
        }) + (if self.i64_val is Some {
            1nat
        } else {
            0nat
        }) + (if self.i128_val is Some {
            1nat
        } else {
            0nat
        }) + (if self.f32_val is Some {
            1nat
        } else {
            0nat
        }) + (if self.f64_val is Some {
            1nat
        } else {
            0nat
        })
    }

    /// Empties every slot.
    pub fn clean(&mut self)
        ensures
            *final(self) == Number::empty_spec(),
    {
        self.u8_val = None;
        self.u16_val = None;
        self.u32_val = None;
        self.u64_val = None;
        self.u128_val = None;
        self.i8_val = None;
        self.i16_val = None;
        self.i32_val = None;
        self.i64_val = None;
        self.i128_val = None;
        self.f32_val = None;
        self.f64_val = None;
    }

    pub fn set_u8(&mut self, value: u8)
        ensures
            *final(self) == (Number { u8_val: Some(value), ..*old(self) }),
    {
        self.u8_val = Some(value);
    }

    pub fn set_u16(&mut self, value: u16)
        ensures
            *final(self) == (Number { u16_val: Some(value), ..*old(self) }),
    {
        self.u16_val = Some(value);
    }

    pub fn set_u32(&mut self, value: u32)
        ensures
            *final(self) == (Number { u32_val: Some(value), ..*old(self) }),
    {
        self.u32_val = Some(value);
    }

    pub fn set_u64(&mut self, value: u64)
        ensures
            *final(self) == (Number { u64_val: Some(value), ..*old(self) }),
    {
        self.u64_val = Some(value);
    }

    pub fn set_u128(&mut self, value: u128)
        ensures
            *final(self) == (Number { u128_val: Some(value), ..*old(self) }),
    {
        self.u128_val = Some(value);
    }

    pub fn set_i8(&mut self, value: i8)
        ensures
            *final(self) == (Number { i8_val: Some(value), ..*old(self) }),
    {
        self.i8_val = Some(value);
    }

    pub fn set_i16(&mut self, value: i16)
        ensures
            *final(self) == (Number { i16_val: Some(value), ..*old(self) }),
    {
        self.i16_val = Some(value);
    }

    pub fn set_i32(&mut self, value: i32)
        ensures
            *final(self) == (Number { i32_val: Some(value), ..*old(self) }),
    {
        self.i32_val = Some(value);
    }

    pub fn set_i64(&mut self, value: i64)
        ensures
            *final(self) == (Number { i64_val: Some(value), ..*old(self) }),
    {
        self.i64_val = Some(value);
    }

    pub fn set_i128(&mut self, value: i128)
        ensures
            *final(self) == (Number { i128_val: Some(value), ..*old(self) }),
    {
        self.i128_val = Some(value);
    }

    /// Stores a float value in the `f32` slot.
    pub fn set_f32(&mut self, value: JsonNumber)
        ensures
            *final(self) == (Number { f32_val: Some(value), ..*old(self) }),
    {
        self.f32_val = Some(value);
    }

    /// Stores a float value in the `f64` slot.
    pub fn set_f64(&mut self, value: JsonNumber)
        ensures
            *final(self) == (Number { f64_val: Some(value), ..*old(self) }),
    {
        self.f64_val = Some(value);
    }

    pub fn get_u8(&self) -> (r: Option<u8>)
        ensures
            r == self.u8_val,
    {
        self.u8_val
    }

    pub fn get_u16(&self) -> (r: Option<u16>)
        ensures
            r == self.u16_val,
    {
        self.u16_val
    }

    pub fn get_u32(&self) -> (r: Option<u32>)
        ensures
            r == self.u32_val,
    {
        self.u32_val
    }

    pub fn get_u64(&self) -> (r: Option<u64>)
        ensures
            r == self.u64_val,
    {
        self.u64_val
    }

    pub fn get_u128(&self) -> (r: Option<u128>)
        ensures
            r == self.u128_val,
    {
        self.u128_val
    }

    pub fn get_i8(&self) -> (r: Option<i8>)
        ensures
            r == self.i8_val,
    {
        self.i8_val
    }

    pub fn get_i16(&self) -> (r: Option<i16>)
        ensures
            r == self.i16_val,
    {
        self.i16_val
    }

    pub fn get_i32(&self) -> (r: Option<i32>)
        ensures
            r == self.i32_val,
    {
        self.i32_val
    }

    pub fn get_i64(&self) -> (r: Option<i64>)
        ensures
            r == self.i64_val,
    {
        self.i64_val
    }

    pub fn get_i128(&self) -> (r: Option<i128>)
        ensures
            r == self.i128_val,
    {
        self.i128_val
    }

    /// The `f32` slot's value, when it is populated.
    pub fn get_f32(&self) -> (r: Option<JsonNumber>)
        ensures
            r == self.f32_val,
    {
        opt_float_box_clone(&self.f32_val)
    }

    /// The `f64` slot's value, when it is populated.
    pub fn get_f64(&self) -> (r: Option<JsonNumber>)
        ensures
            r == self.f64_val,
    {
        opt_float_box_clone(&self.f64_val)
    }

    pub fn get_u8_unsafe(&self) -> (r: u8)
        requires
            self.u8_val is Some,
        ensures
            r == self.u8_val.unwrap(),
    {
        self.u8_val.unwrap()
    }

    pub fn get_u16_unsafe(&self) -> (r: u16)
        requires
            self.u16_val is Some,
        ensures
            r == self.u16_val.unwrap(),
    {
        self.u16_val.unwrap()
    }

    pub fn get_u32_unsafe(&self) -> (r: u32)
        requires
            self.u32_val is Some,
        ensures
            r == self.u32_val.unwrap(),
    {
        self.u32_val.unwrap()
    }

    pub fn get_u64_unsafe(&self) -> (r: u64)
        requires
            self.u64_val is Some,
        ensures
            r == self.u64_val.unwrap(),
    {
        self.u64_val.unwrap()
    }

    pub fn get_u128_unsafe(&self) -> (r: u128)
        requires
            self.u128_val is Some,
        ensures
            r == self.u128_val.unwrap(),
    {
        self.u128_val.unwrap()
    }

    pub fn get_i8_unsafe(&self) -> (r: i8)
        requires
            self.i8_val is Some,
        ensures
            r == self.i8_val.unwrap(),
    {
        self.i8_val.unwrap()
    }

    pub fn get_i16_unsafe(&self) -> (r: i16)
        requires
            self.i16_val is Some,
        ensures
            r == self.i16_val.unwrap(),
    {
        self.i16_val.unwrap()
    }

    pub fn get_i32_unsafe(&self) -> (r: i32)
        requires
            self.i32_val is Some,
        ensures
            r == self.i32_val.unwrap(),
    {
        self.i32_val.unwrap()
    }

    pub fn get_i64_unsafe(&self) -> (r: i64)
        requires
            self.i64_val is Some,
        ensures
            r == self.i64_val.unwrap(),
    {
        self.i64_val.unwrap()
    }

    pub fn get_i128_unsafe(&self) -> (r: i128)
        requires
            self.i128_val is Some,
        ensures
            r == self.i128_val.unwrap(),
    {
        self.i128_val.unwrap()
    }

    /// The `f32` slot's value; the slot must be populated.
    pub fn get_f32_unsafe(&self) -> (r: JsonNumber)
        requires
            self.f32_val is Some,
        ensures
            r == self.f32_val.unwrap(),
    {
        match &self.f32_val {
            Option::Some(v) => v.clone(),
            Option::None => unreached(),
        }
    }

    /// The `f64` slot's value; the slot must be populated.
    pub fn get_f64_unsafe(&self) -> (r: JsonNumber)
        requires
            self.f64_val is Some,
        ensures
            r == self.f64_val.unwrap(),
    {
        match &self.f64_val {
            Option::Some(v) => v.clone(),
            Option::None => unreached(),
        }
    }

    pub fn is_u8(&self) -> (r: bool)
        ensures
            r == (self.u8_val is Some),
    {
        self.u8_val.is_some()
    }

    pub fn is_u16(&self) -> (r: bool)
        ensures
            r == (self.u16_val is Some),
    {
        self.u16_val.is_some()
    }

    pub fn is_u32(&self) -> (r: bool)
        ensures
            r == (self.u32_val is Some),
    {
        self.u32_val.is_some()
    }

    pub fn is_u64(&self) -> (r: bool)
        ensures
            r == (self.u64_val is Some),
    {
        self.u64_val.is_some()
    }

    pub fn is_u128(&self) -> (r: bool)
        ensures
            r == (self.u128_val is Some),
    {
        self.u128_val.is_some()
    }

    pub fn is_i8(&self) -> (r: bool)
        ensures
            r == (self.i8_val is Some),
    {
        self.i8_val.is_some()
    }

    pub fn is_i16(&self) -> (r: bool)
        ensures
            r == (self.i16_val is Some),
    {
        self.i16_val.is_some()
    }

    pub fn is_i32(&self) -> (r: bool)
        ensures
            r == (self.i32_val is Some),
    {
        self.i32_val.is_some()
    }

    pub fn is_i64(&self) -> (r: bool)
        ensures
            r == (self.i64_val is Some),
    {
        self.i64_val.is_some()
    }

    pub fn is_i128(&self) -> (r: bool)
        ensures
            r == (self.i128_val is Some),
    {
        self.i128_val.is_some()
    }

    pub fn is_f32(&self) -> (r: bool)
        ensures
            r == (self.f32_val is Some),
    {
        self.f32_val.is_some()
    }

    pub fn is_f64(&self) -> (r: bool)
        ensures
            r == (self.f64_val is Some),
    {
        self.f64_val.is_some()
    }

    /// Some slot is populated.
    pub open spec fn holds_number(self) -> bool {
        self.slot_count() > 0
    }

    pub fn is_number(&self) -> (r: bool)
        ensures
            r == self.holds_number(),
    {
        self.is_i8() || self.is_i16() || self.is_i32() || self.is_i64() || self.is_i128()
            || self.is_u8() || self.is_u16() || self.is_u32() || self.is_u64() || self.is_u128()
            || self.is_f32() || self.is_f64()
    }

    /// An integer slot is populated.
    pub open spec fn holds_integer(self) -> bool {
        self.i8_val is Some || self.i16_val is Some || self.i32_val is Some || self.i64_val is Some
            || self.i128_val is Some || self.u8_val is Some || self.u16_val is Some
            || self.u32_val is Some || self.u64_val is Some || self.u128_val is Some
    }

    pub fn is_integer(&self) -> (r: bool)
        ensures
            r == self.holds_integer(),
    {
        self.is_i8() || self.is_i16() || self.is_i32() || self.is_i64() || self.is_i128()
            || self.is_u8() || self.is_u16() || self.is_u32() || self.is_u64() || self.is_u128()
    }

    pub fn is_float(&self) -> (r: bool)
        ensures
            r == (self.f32_val is Some || self.f64_val is Some),
    {
        self.is_f32() || self.is_f64()
    }

    /// A populated slot holds a value strictly below zero.
    pub open spec fn holds_negative_value(self) -> bool {
        ||| (self.i8_val is Some && self.i8_val.unwrap() < 0)
        ||| (self.i16_val is Some && self.i16_val.unwrap() < 0)
        ||| (self.i32_val is Some && self.i32_val.unwrap() < 0)
        ||| (self.i64_val is Some && self.i64_val.unwrap() < 0)
        ||| (self.i128_val is Some && self.i128_val.unwrap() < 0)
        ||| (self.f32_val is Some && float_box_neg(self.f32_val.unwrap()))
        ||| (self.f64_val is Some && float_box_neg(self.f64_val.unwrap()))
    }

    pub fn is_signed(&self) -> (r: bool)
        ensures
            r == self.holds_negative_value(),
    {
        (self.is_i8() && self.get_i8_unsafe() < 0) || (self.is_i16() && self.get_i16_unsafe() < 0)
            || (self.is_i32() && self.get_i32_unsafe() < 0) || (self.is_i64()
            && self.get_i64_unsafe() < 0) || (self.is_i128() && self.get_i128_unsafe() < 0) || (
        self.is_f32() && float_box_is_neg(&self.get_f32_unsafe())) || (self.is_f64()
            && float_box_is_neg(&self.get_f64_unsafe()))
    }

    pub fn is_unsigned(&self) -> (r: bool)
        ensures
            r == (self.u8_val is Some || self.u16_val is Some || self.u32_val is Some
                || self.u64_val is Some || self.u128_val is Some),
    {
        self.is_u8() || self.is_u16() || self.is_u32() || self.is_u64() || self.is_u128()
    }

    /// A populated slot holds zero.
    pub open spec fn holds_zero(self) -> bool {
        ||| (self.i8_val is Some && self.i8_val.unwrap() == 0)
        ||| (self.i16_val is Some && self.i16_val.unwrap() == 0)
        ||| (self.i32_val is Some && self.i32_val.unwrap() == 0)
        ||| (self.i64_val is Some && self.i64_val.unwrap() == 0)
        ||| (self.i128_val is Some && self.i128_val.unwrap() == 0)
        ||| (self.f32_val is Some && float_box_zero(self.f32_val.unwrap()))
        ||| (self.f64_val is Some && float_box_zero(self.f64_val.unwrap()))
        ||| (self.u8_val is Some && self.u8_val.unwrap() == 0)
        ||| (self.u16_val is Some && self.u16_val.unwrap() == 0)
        ||| (self.u32_val is Some && self.u32_val.unwrap() == 0)
        ||| (self.u64_val is Some && self.u64_val.unwrap() == 0)
        ||| (self.u128_val is Some && self.u128_val.unwrap() == 0)
    }

    pub fn is_zero(&self) -> (r: bool)
        ensures
            r == self.holds_zero(),
    {
        (self.is_i8() && self.get_i8_unsafe() == 0) || (self.is_i16() && self.get_i16_unsafe()
            == 0) || (self.is_i32() && self.get_i32_unsafe() == 0) || (self.is_i64()
            && self.get_i64_unsafe() == 0) || (self.is_i128() && self.get_i128_unsafe() == 0) || (
        self.is_f32() && float_box_is_zero(&self.get_f32_unsafe())) || (self.is_f64()
            && float_box_is_zero(&self.get_f64_unsafe())) || (self.is_u8() && self.get_u8_unsafe()
            == 0) || (self.is_u16() && self.get_u16_unsafe() == 0) || (self.is_u32()
            && self.get_u32_unsafe() == 0) || (self.is_u64() && self.get_u64_unsafe() == 0) || (
        self.is_u128() && self.get_u128_unsafe() == 0)
    }

    pub fn is_positive(&self) -> (r: bool)
        ensures
            r == (!self.holds_negative_value() && !self.holds_zero()),
    {
        !self.is_signed() && !self.is_zero()
    }

    pub fn is_negative(&self) -> (r: bool)
        ensures
            r == (self.holds_negative_value() && !self.holds_zero()),
    {
        self.is_signed() && !self.is_zero()
    }

    /// The tag of the populated slot, resolved in a fixed priority order:
    /// signed integers first, then unsigned, then floats.
    pub open spec fn number_type_spec(self) -> NumberType {
        if self.i8_val is Some {
            NumberType::I8
        } else if self.i16_val is Some {
            NumberType::I16
        } else if self.i32_val is Some {
            NumberType::I32
        } else if self.i64_val is Some {
            NumberType::I64
        } else if self.i128_val is Some {
            NumberType::I128
        } else if self.u8_val is Some {
            NumberType::U8
        } else if self.u16_val is Some {
            NumberType::U16
        } else if self.u32_val is Some {
            NumberType::U32
        } else if self.u64_val is Some {
            NumberType::U64
        } else if self.u128_val is Some {
            NumberType::U128
        } else if self.f32_val is Some {
            NumberType::F32
        } else if self.f64_val is Some {
            NumberType::F64
        } else {
            NumberType::Unknown
        }
    }

    pub fn number_type(&self) -> (r: NumberType)
        ensures
            r == self.number_type_spec(),
    {
        if self.is_i8() {
            NumberType::I8
        } else if self.is_i16() {
            NumberType::I16
        } else if self.is_i32() {
            NumberType::I32
        } else if self.is_i64() {
            NumberType::I64
        } else if self.is_i128() {
            NumberType::I128
        } else if self.is_u8() {
            NumberType::U8
        } else if self.is_u16() {
            NumberType::U16
        } else if self.is_u32() {
            NumberType::U32
        } else if self.is_u64() {
            NumberType::U64
        } else if self.is_u128() {
            NumberType::U128
        } else if self.is_f32() {
            NumberType::F32
        } else if self.is_f64() {
            NumberType::F64
        } else {
            NumberType::Unknown
        }
    }

    /// The text of the number: the one populated slot rendered in decimal, or
    /// `Unknown` when no slot or more than one slot is populated.
    pub open spec fn chars_of(self) -> Seq<char> {
        if self.slot_count() != 1 {
            seq!['U', 'n', 'k', 'n', 'o', 'w', 'n']
        } else if self.u8_val is Some {
            dec_nat(self.u8_val.unwrap() as nat)
        } else if self.u16_val is Some {
            dec_nat(self.u16_val.unwrap() as nat)
        } else if self.u32_val is Some {
            dec_nat(self.u32_val.unwrap() as nat)
        } else if self.u64_val is Some {
            dec_nat(self.u64_val.unwrap() as nat)
        } else if self.u128_val is Some {
            dec_nat(self.u128_val.unwrap() as nat)
        } else if self.i8_val is Some {
            dec_int(self.i8_val.unwrap() as int)
        } else if self.i16_val is Some {
            dec_int(self.i16_val.unwrap() as int)
        } else if self.i32_val is Some {
            dec_int(self.i32_val.unwrap() as int)
        } else if self.i64_val is Some {
            dec_int(self.i64_val.unwrap() as int)
        } else if self.i128_val is Some {
            dec_int(self.i128_val.unwrap() as int)
        } else if self.f32_val is Some {
            float_text_of(self.f32_val.unwrap())
        } else {
            float_text_of(self.f64_val.unwrap())
        }
    }

    /// How many slots are populated.
    #[verifier::rlimit(100)]
    pub fn populated_slots(&self) -> (r: u32)
        ensures
            r as nat == self.slot_count(),
    {
        let mut count: u32 = 0;
        if self.u8_val.is_some() {
            count = count + 1;
        }
        if self.u16_val.is_some() {
            count = count + 1;
        }
        if self.u32_val.is_some() {
            count = count + 1;
        }
        if self.u64_val.is_some() {
            count = count + 1;
        }
        if self.u128_val.is_some() {
            count = count + 1;
        }
        assert(count <= 5);
        assert(count as nat == (if self.u8_val is Some {
            1nat
        } else {
            0nat
        }) + (if self.u16_val is Some {
            1nat
        } else {
            0nat
        }) + (if self.u32_val is Some {
            1nat
        } else {
            0nat
        }) + (if self.u64_val is Some {
            1nat
        } else {
            0nat
        }) + (if self.u128_val is Some {
            1nat
        } else {
            0nat
        }));
        let mut count2: u32 = 0;
        if self.i8_val.is_some() {
            count2 = count2 + 1;
        }
        if self.i16_val.is_some() {
            count2 = count2 + 1;
        }
        if self.i32_val.is_some() {
            count2 = count2 + 1;
        }
        if self.i64_val.is_some() {
            count2 = count2 + 1;
        }
        if self.i128_val.is_some() {
            count2 = count2 + 1;
        }
        assert(count2 <= 5);
        assert(count2 as nat == (if self.i8_val is Some {
            1nat
        } else {
            0nat
        }) + (if self.i16_val is Some {
            1nat
        } else {
            0nat
        }) + (if self.i32_val is Some {
            1nat
        } else {
            0nat
        }) + (if self.i64_val is Some {
            1nat
        } else {
            0nat
        }) + (if self.i128_val is Some {
            1nat
        } else {
            0nat
        }));
        let mut count3: u32 = 0;
        if self.f32_val.is_some() {
            count3 = count3 + 1;
        }
        if self.f64_val.is_some() {
            count3 = count3 + 1;
        }
        assert(count3 <= 2);
        assert(count3 as nat == (if self.f32_val is Some {
            1nat
        } else {
            0nat
        }) + (if self.f64_val is Some {
            1nat
        } else {
            0nat
        }));
        assert(count as nat + count2 as nat + count3 as nat == self.slot_count());
        count + count2 + count3
    }

    /// The text of the one populated slot.
    #[verifier::rlimit(100)]
    fn single_slot_text(&self) -> (r: String)
        requires
            self.slot_count() == 1,
        ensures
            r@ == self.chars_of(),
    {
        if self.is_u8() {
            let v = chars_to_string(&fmt_u128(self.get_u8_unsafe() as u128));
            return v;
        }
        if self.is_u16() {
            let v = chars_to_string(&fmt_u128(self.get_u16_unsafe() as u128));
            return v;
        }
        if self.is_u32() {
            let v = chars_to_string(&fmt_u128(self.get_u32_unsafe() as u128));
            return v;
        }
        if self.is_u64() {
            let v = chars_to_string(&fmt_u128(self.get_u64_unsafe() as u128));
            return v;
        }
        if self.is_u128() {
            let v = chars_to_string(&fmt_u128(self.get_u128_unsafe()));
            return v;
        }
        if self.is_i8() {
            let v = chars_to_string(&fmt_i128(self.get_i8_unsafe() as i128));
            return v;
        }
        if self.is_i16() {
            let v = chars_to_string(&fmt_i128(self.get_i16_unsafe() as i128));
            return v;
        }
        if self.is_i32() {
            let v = chars_to_string(&fmt_i128(self.get_i32_unsafe() as i128));
            return v;
        }
        if self.is_i64() {
            let v = chars_to_string(&fmt_i128(self.get_i64_unsafe() as i128));
            return v;
        }
        if self.is_i128() {
            let v = chars_to_string(&fmt_i128(self.get_i128_unsafe()));
            return v;
        }
        if self.is_f32() {
            let v = float_box_text(&self.get_f32_unsafe());
            return v;
        }
        let v = float_box_text(&self.get_f64_unsafe());
        v
    }

    /// Renders the number as text, as `chars_of` describes.
    pub fn as_string(&self) -> (r: String)
        ensures
            r@ == self.chars_of(),
    {
        let populated = self.populated_slots();
        if populated != 1 {
            let r = unknown_text();
            return r;
        }
        self.single_slot_text()
    }
}

/// The text `Unknown`.
fn unknown_text() -> (r: String)
    ensures
        r@ == seq!['U', 'n', 'k', 'n', 'o', 'w', 'n'],
{
    let r = String::from_str("Unknown");
    proof {
        reveal_strlit("Unknown");
        assert(r@ =~= seq!['U', 'n', 'k', 'n', 'o', 'w', 'n']);
    }
    r
}

// ---------------------------------------------------------------------------
// Conversions into Number.
// ---------------------------------------------------------------------------

impl From<u8> for Number {
    fn from(value: u8) -> (r: Self)
        ensures
            r == (Number { u8_val: Some(value), ..Number::empty_spec() }),
    {
        Number { u8_val: Some(value), ..Number::default() }
    }
}

impl vstd::std_specs::convert::FromSpecImpl<u8> for Number {
    open spec fn obeys_from_spec() -> bool {
        true
    }

    open spec fn from_spec(value: u8) -> Number {
        Number { u8_val: Some(value), ..Number::empty_spec() }
    }
}

impl From<u16> for Number {
    fn from(value: u16) -> (r: Self)
        ensures
            r == (Number { u16_val: Some(value), ..Number::empty_spec() }),
    {
        Number { u16_val: Some(value), ..Number::default() }
    }
}

impl vstd::std_specs::convert::FromSpecImpl<u16> for Number {
    open spec fn obeys_from_spec() -> bool {
        true
    }

    open spec fn from_spec(value: u16) -> Number {
        Number { u16_val: Some(value), ..Number::empty_spec() }
    }
}

impl From<u32> for Number {
    fn from(value: u32) -> (r: Self)
        ensures
            r == (Number { u32_val: Some(value), ..Number::empty_spec() }),
    {
        Number { u32_val: Some(value), ..Number::default() }
    }
}

impl vstd::std_specs::convert::FromSpecImpl<u32> for Number {
    open spec fn obeys_from_spec() -> bool {
        true
    }

    open spec fn from_spec(value: u32) -> Number {
        Number { u32_val: Some(value), ..Number::empty_spec() }
    }
}

impl From<u64> for Number {
    fn from(value: u64) -> (r: Self)
        ensures
            r == (Number { u64_val: Some(value), ..Number::empty_spec() }),
    {
        Number { u64_val: Some(value), ..Number::default() }
    }
}

impl vstd::std_specs::convert::FromSpecImpl<u64> for Number {
    open spec fn obeys_from_spec() -> bool {
        true
    }

    open spec fn from_spec(value: u64) -> Number {
        Number { u64_val: Some(value), ..Number::empty_spec() }
    }
}

impl From<u128> for Number {
    fn from(value: u128) -> (r: Self)
        ensures
            r == (Number { u128_val: Some(value), ..Number::empty_spec() }),
    {
        Number { u128_val: Some(value), ..Number::default() }
    }
}

impl vstd::std_specs::convert::FromSpecImpl<u128> for Number {
    open spec fn obeys_from_spec() -> bool {
        true
    }

    open spec fn from_spec(value: u128) -> Number {
        Number { u128_val: Some(value), ..Number::empty_spec() }
    }
}

impl From<i8> for Number {
    fn from(value: i8) -> (r: Self)
        ensures
            r == (Number { i8_val: Some(value), ..Number::empty_spec() }),
    {
        Number { i8_val: Some(value), ..Number::default() }
    }
}

impl vstd::std_specs::convert::FromSpecImpl<i8> for Number {
    open spec fn obeys_from_spec() -> bool {
        true
    }

    open spec fn from_spec(value: i8) -> Number {
        Number { i8_val: Some(value), ..Number::empty_spec() }
    }
}

impl From<i16> for Number {
    fn from(value: i16) -> (r: Self)
        ensures
            r == (Number { i16_val: Some(value), ..Number::empty_spec() }),
    {
        Number { i16_val: Some(value), ..Number::default() }
    }
}

impl vstd::std_specs::convert::FromSpecImpl<i16> for Number {
    open spec fn obeys_from_spec() -> bool {
        true
    }

    open spec fn from_spec(value: i16) -> Number {
        Number { i16_val: Some(value), ..Number::empty_spec() }
    }
}

impl From<i32> for Number {
    fn from(value: i32) -> (r: Self)
        ensures
            r == (Number { i32_val: Some(value), ..Number::empty_spec() }),
    {
        Number { i32_val: Some(value), ..Number::default() }
    }
}

impl vstd::std_specs::convert::FromSpecImpl<i32> for Number {
    open spec fn obeys_from_spec() -> bool {
        true
    }

    open spec fn from_spec(value: i32) -> Number {
        Number { i32_val: Some(value), ..Number::empty_spec() }
    }
}

impl From<i64> for Number {
    fn from(value: i64) -> (r: Self)
        ensures
            r == (Number { i64_val: Some(value), ..Number::empty_spec() }),
    {
        Number { i64_val: Some(value), ..Number::default() }
    }
}

impl vstd::std_specs::convert::FromSpecImpl<i64> for Number {
    open spec fn obeys_from_spec() -> bool {
        true
    }

    open spec fn from_spec(value: i64) -> Number {
        Number { i64_val: Some(value), ..Number::empty_spec() }
    }
}

impl From<i128> for Number {
    fn from(value: i128) -> (r: Self)
        ensures
            r == (Number { i128_val: Some(value), ..Number::empty_spec() }),
    {
        Number { i128_val: Some(value), ..Number::default() }
    }
}

impl vstd::std_specs::convert::FromSpecImpl<i128> for Number {
    open spec fn obeys_from_spec() -> bool {
        true
    }

    open spec fn from_spec(value: i128) -> Number {
        Number { i128_val: Some(value), ..Number::empty_spec() }
    }
}

/// A float-slot number built from a parsed float value.
impl Number {
    /// A number holding the given value in its `f32` slot.
    pub fn from_f32(value: JsonNumber) -> (r: Number)
        ensures
            r == (Number { f32_val: Some(value), ..Number::empty_spec() }),
    {
        Number { f32_val: Some(value), ..Number::default() }
    }

    /// A number holding the given value in its `f64` slot.
    pub fn from_f64(value: JsonNumber) -> (r: Number)
        ensures
            r == (Number { f64_val: Some(value), ..Number::empty_spec() }),
    {
        Number { f64_val: Some(value), ..Number::default() }
    }

    /// The slot chosen for a `usize`: the first unsigned width whose maximum
    /// reaches the value, in the fixed order u8, u16, u32, u64, u128.
    pub open spec fn from_usize_spec(value: usize) -> Number {
        if value <= u8::MAX {
            Number { u8_val: Some(value as u8), ..Number::empty_spec() }
        } else if value <= u16::MAX {
            Number { u16_val: Some(value as u16), ..Number::empty_spec() }
        } else if value <= u32::MAX {
            Number { u32_val: Some(value as u32), ..Number::empty_spec() }
        } else if value <= u64::MAX {
            Number { u64_val: Some(value as u64), ..Number::empty_spec() }
        } else {
            Number { u128_val: Some(value as u128), ..Number::empty_spec() }
        }
    }
}

impl From<usize> for Number {
    fn from(value: usize) -> (r: Self)
        ensures
            r == Number::from_usize_spec(value),
    {
        if value <= u8::MAX as usize {
            Number::from(value as u8)
        } else if value <= u16::MAX as usize {
            Number::from(value as u16)
        } else if (value as u64) <= u32::MAX as u64 {
            Number::from(value as u32)
        } else if (value as u128) <= u64::MAX as u128 {
            Number::from(value as u64)
        } else {
            Number::from(value as u128)
        }
    }
}

impl vstd::std_specs::convert::FromSpecImpl<usize> for Number {
    open spec fn obeys_from_spec() -> bool {
        true
    }

    open spec fn from_spec(value: usize) -> Number {
        Number::from_usize_spec(value)
    }
}

// ---------------------------------------------------------------------------
// Reading a Number from text.
// ---------------------------------------------------------------------------


// ---------------------------------------------------------------------------
// The float grammar of the reading cascade.
//
// The original cascade parsed floats with Rust's grammar. The float carrier
// reads JSON-shaped texts, so a Rust-shaped float text is first normalized —
// the plus sign dropped, leading zeros stripped, a bare trailing dot removed
// — which leaves the denoted value unchanged.
// ---------------------------------------------------------------------------

/// The first position at or after `i` holding no decimal digit.
pub open spec fn float_digits_end(s: Seq<char>, i: int) -> int
    decreases s.len() - i,
{
    if 0 <= i < s.len() && is_dec_digit(s[i]) {
        float_digits_end(s, i + 1)
    } else {
        i
    }
}

/// A finite float text of Rust's shape: an optional sign, a mantissa with at
/// least one digit on either side of an optional dot, and an optional
/// exponent; the non-finite words are left out, as the carrier cannot hold
/// them.
pub open spec fn rust_float_shape(s: Seq<char>) -> bool {
    let a = if s.len() > 0 && (s[0] == '+' || s[0] == '-') {
        1int
    } else {
        0int
    };
    let b = float_digits_end(s, a);
    let has_dot = b < s.len() && s[b] == '.';
    let c = if has_dot {
        float_digits_end(s, b + 1)
    } else {
        b
    };
    let mantissa_ok = b > a || (has_dot && c > b + 1);
    let m_end = if has_dot {
        c
    } else {
        b
    };
    if !mantissa_ok {
        false
    } else if m_end == s.len() {
        true
    } else if s[m_end] == 'e' || s[m_end] == 'E' {
        let e0 = if m_end + 1 < s.len() && (s[m_end + 1] == '+' || s[m_end + 1] == '-') {
            m_end + 2
        } else {
            m_end + 1
        };
        e0 < s.len() && float_digits_end(s, e0) == s.len()
    } else {
        false
    }
}

/// A digit run without its leading zeros; one zero stands for an empty or
/// all-zero run.
pub open spec fn strip_zeros(d: Seq<char>) -> Seq<char>
    decreases d.len(),
{
    if d.len() == 0 {
        seq!['0']
    } else if d.len() > 1 && d[0] == '0' {
        strip_zeros(d.drop_first())
    } else {
        d
    }
}

/// The JSON-shaped text with the same value as a Rust-shaped float text.
pub open spec fn normal_float_text(s: Seq<char>) -> Seq<char> {
    let a = if s.len() > 0 && (s[0] == '+' || s[0] == '-') {
        1int
    } else {
        0int
    };
    let b = float_digits_end(s, a);
    let has_dot = b < s.len() && s[b] == '.';
    let c = if has_dot {
        float_digits_end(s, b + 1)
    } else {
        b
    };
    let m_end = if has_dot {
        c
    } else {
        b
    };
    let sign = if s.len() > 0 && s[0] == '-' {
        seq!['-']
    } else {
        Seq::<char>::empty()
    };
    let frac = if has_dot && c > b + 1 {
        seq!['.'] + s.subrange(b + 1, c)
    } else if has_dot {
        seq!['.', '0']
    } else {
        Seq::<char>::empty()
    };
    sign + strip_zeros(s.subrange(a, b)) + frac + s.subrange(m_end, s.len() as int)
}

/// Finds the end of a digit run, as `float_digits_end` describes.
fn float_digit_run(s: &Vec<char>, i: usize) -> (r: usize)
    requires
        i <= s@.len(),
    ensures
        r as int == float_digits_end(s@, i as int),
        i <= r <= s@.len(),
{
    let mut k: usize = i;
    while k < s.len() && 48 <= (s[k] as u32) && (s[k] as u32) <= 57
        invariant
            i <= k <= s@.len(),
            float_digits_end(s@, i as int) == float_digits_end(s@, k as int),
        decreases s@.len() - k,
    {
        k = k + 1;
    }
    k
}

/// Normalizes a Rust-shaped float text to its JSON shape; nothing when the
/// text has no such shape.
#[verifier::spinoff_prover]
#[verifier::rlimit(100)]
fn normalize_float_text(s: &Vec<char>) -> (r: Option<Vec<char>>)
    ensures
        r is Some <==> rust_float_shape(s@),
        r is Some ==> r.unwrap()@ == normal_float_text(s@),
{
    let n = s.len();
    let a: usize = if n > 0 && (s[0] == '+' || s[0] == '-') {
        1
    } else {
        0
    };
    let b = float_digit_run(s, a);
    let has_dot = b < n && s[b] == '.';
    let c: usize = if has_dot {
        float_digit_run(s, b + 1)
    } else {
        b
    };
    let mantissa_ok = b > a || (has_dot && c > b + 1);
    if !mantissa_ok {
        return None;
    }
    let m_end: usize = if has_dot {
        c
    } else {
        b
    };
    if m_end < n {
        if !(s[m_end] == 'e' || s[m_end] == 'E') {
            return None;
        }
        let e0: usize = if m_end + 1 < n && (s[m_end + 1] == '+' || s[m_end + 1] == '-') {
            m_end + 2
        } else {
            m_end + 1
        };
        if !(e0 < n) {
            return None;
        }
        if float_digit_run(s, e0) != n {
            return None;
        }
    }
    let mut out: Vec<char> = Vec::new();
    if n > 0 && s[0] == '-' {
        out.push('-');
    }
    let ghost sign = if s@.len() > 0 && s@[0] == '-' {
        seq!['-']
    } else {
        Seq::<char>::empty()
    };
    assert(out@ =~= sign);
    if b == a {
        out.push('0');
        proof {
            assert(s@.subrange(a as int, b as int) =~= Seq::<char>::empty());
            assert(out@ =~= sign + strip_zeros(s@.subrange(a as int, b as int)));
        }
    } else {
        let mut p: usize = a;
        while b - p > 1 && s[p] == '0'
            invariant
                a <= p < b <= s@.len(),
                strip_zeros(s@.subrange(a as int, b as int)) == strip_zeros(
                    s@.subrange(p as int, b as int),
                ),
            decreases b - p,
        {
            proof {
                let d = s@.subrange(p as int, b as int);
                assert(d.len() > 1 && d[0] == '0');
                assert(d.drop_first() =~= s@.subrange(p + 1int, b as int));
            }
            p = p + 1;
        }
        proof {
            let d = s@.subrange(p as int, b as int);
            assert(!(d.len() > 1 && d[0] == '0'));
            assert(strip_zeros(d) == d);
        }
        let ghost head = out@;
        let mut q: usize = p;
        while q < b
            invariant
                p <= q <= b <= s@.len(),
                out@ == head + s@.subrange(p as int, q as int),
            decreases b - q,
        {
            out.push(s[q]);
            assert(out@ =~= head + s@.subrange(p as int, q + 1int));
            q = q + 1;
        }
        proof {
            assert(out@ =~= sign + strip_zeros(s@.subrange(a as int, b as int)));
        }
    }
    let ghost mantissa = out@;
    if has_dot && c > b + 1 {
        out.push('.');
        let ghost head = out@;
        let mut q: usize = b + 1;
        while q < c
            invariant
                b + 1 <= q <= c <= s@.len(),
                out@ == head + s@.subrange(b + 1int, q as int),
            decreases c - q,
        {
            out.push(s[q]);
            assert(out@ =~= head + s@.subrange(b + 1int, q + 1int));
            q = q + 1;
        }
        proof {
            assert(out@ =~= mantissa + (seq!['.'] + s@.subrange(b + 1int, c as int)));
        }
    } else if has_dot {
        out.push('.');
        out.push('0');
        proof {
            assert(out@ =~= mantissa + seq!['.', '0']);
        }
    }
    let ghost with_frac = out@;
    let ghost head = out@;
    let mut q: usize = m_end;
    while q < n
        invariant
            m_end <= q <= n == s@.len(),
            out@ == head + s@.subrange(m_end as int, q as int),
        decreases n - q,
    {
        out.push(s[q]);
        assert(out@ =~= head + s@.subrange(m_end as int, q + 1int));
        q = q + 1;
    }
    proof {
        assert(out@ =~= normal_float_text(s@));
    }
    Some(out)
}

/// The sign and magnitude a well-shaped integer text denotes.
fn read_int_text(s: &Vec<char>) -> (r: Option<(bool, u128)>)
    ensures
        match r {
            Some(p) => int_text_ok(s@) && int_text_val(s@) == if p.0 {
                -(p.1 as int)
            } else {
                p.1 as int
            },
            None => !int_text_ok(s@) || int_text_val(s@) > u128::MAX
                || int_text_val(s@) < -(u128::MAX as int),
        },
{
    let n = s.len();
    if n == 0 {
        return None;
    }
    let first = s[0];
    let (neg, start): (bool, usize) = if first == '-' {
        (true, 1)
    } else if first == '+' {
        (false, 1)
    } else {
        (false, 0)
    };
    if start >= n {
        return None;
    }
    let mut k: usize = start;
    while k < n
        invariant
            start <= k <= n,
            n == s@.len(),
            n >= 1,
            start == 0 || start == 1,
            (start == 1) == (s@[0] == '-' || s@[0] == '+'),
            neg == (s@[0] == '-'),
            forall|m: int| start <= m < k ==> is_dec_digit(#[trigger] s@[m]),
        decreases n - k,
    {
        let c = s[k];
        if !(48 <= (c as u32) && (c as u32) <= 57) {
            proof {
                assert(!is_dec_digit(s@[k as int]));
                if start == 1 {
                    assert(!crate::text::all_digits(s@.drop_first())) by {
                        assert(s@.drop_first()[k - 1] == s@[k as int]);
                    }
                    assert(!int_text_ok(s@));
                } else {
                    assert(!crate::text::all_digits(s@));
                    assert(!int_text_ok(s@));
                }
            }
            return None;
        }
        k = k + 1;
    }
    proof {
        if start == 1 {
            assert forall|m: int| 0 <= m < s@.drop_first().len() implies is_dec_digit(
                #[trigger] s@.drop_first()[m],
            ) by {
                assert(s@.drop_first()[m] == s@[m + 1]);
            }
            assert(int_text_ok(s@));
        } else {
            assert(int_text_ok(s@));
        }
    }
    let ghost digits = if start == 1 { s@.drop_first() } else { s@ };
    proof {
        assert(digits =~= s@.subrange(start as int, n as int));
    }
    match read_digits_u128(s, start, n) {
        Some(mag) => {
            proof {
                if first == '-' {
                    assert(int_text_val(s@) == -(crate::text::digits_val(digits) as int));
                }
            }
            Some((neg, mag))
        },
        None => None,
    }
}

/// The number the reading cascade yields for a text: `i32` first, then a
/// float, then the remaining integer widths in a fixed order, then a float
/// once more; `NotNumber` when nothing accepts it.
pub open spec fn number_from_text_spec(s: Seq<char>) -> Result<Number, Error> {
    if crate::text::int_text_in_range(s, i32::MIN as int, i32::MAX as int) {
        Ok(Number { i32_val: Some(int_text_val(s) as i32), ..Number::empty_spec() })
    } else if rust_float_shape(s) && float_text_accepted(normal_float_text(s)) {
        Ok(Number { f64_val: Some(float_value_of(normal_float_text(s))), ..Number::empty_spec() })
    } else if crate::text::int_text_in_range(s, i8::MIN as int, i8::MAX as int) {
        Ok(Number { i8_val: Some(int_text_val(s) as i8), ..Number::empty_spec() })
    } else if crate::text::int_text_in_range(s, i16::MIN as int, i16::MAX as int) {
        Ok(Number { i16_val: Some(int_text_val(s) as i16), ..Number::empty_spec() })
    } else if crate::text::int_text_in_range(s, i64::MIN as int, i64::MAX as int) {
        Ok(Number { i64_val: Some(int_text_val(s) as i64), ..Number::empty_spec() })
    } else if crate::text::int_text_in_range(s, i128::MIN as int, i128::MAX as int) {
        Ok(Number { i128_val: Some(int_text_val(s) as i128), ..Number::empty_spec() })
    } else if crate::text::int_text_in_range(s, 0, u8::MAX as int) {
        Ok(Number { u8_val: Some(int_text_val(s) as u8), ..Number::empty_spec() })
    } else if crate::text::int_text_in_range(s, 0, u16::MAX as int) {
        Ok(Number { u16_val: Some(int_text_val(s) as u16), ..Number::empty_spec() })
    } else if crate::text::int_text_in_range(s, 0, u32::MAX as int) {
        Ok(Number { u32_val: Some(int_text_val(s) as u32), ..Number::empty_spec() })
    } else if crate::text::int_text_in_range(s, 0, u64::MAX as int) {
        Ok(Number { u64_val: Some(int_text_val(s) as u64), ..Number::empty_spec() })
    } else if crate::text::int_text_in_range(s, 0, u128::MAX as int) {
        Ok(Number { u128_val: Some(int_text_val(s) as u128), ..Number::empty_spec() })
    } else if rust_float_shape(s) && float_text_accepted(normal_float_text(s)) {
        Ok(Number { f32_val: Some(float_value_of(normal_float_text(s))), ..Number::empty_spec() })
    } else {
        Err(Error::NotNumber)
    }
}

/// Reads a number from a character vector, as `number_from_text_spec` says.
pub fn number_from_chars(s: &Vec<char>) -> (r: Result<Number, Error>)
    ensures
        r == number_from_text_spec(s@),
{
    let parsed = read_int_text(s);
    if let Some((neg, mag)) = parsed {
        if !neg && mag <= i32::MAX as u128 {
            return Ok(Number { i32_val: Some(mag as i32), ..Number::default() });
        }
        if neg && mag <= i32::MAX as u128 + 1 {
            let v: i64 = -(mag as i64);
            return Ok(Number { i32_val: Some(v as i32), ..Number::default() });
        }
    }
    match normalize_float_text(s) {
        Some(norm) => {
            let text = chars_to_string(&norm);
            if let Some(value) = parse_float_text(text.as_str()) {
                return Ok(Number { f64_val: Some(value), ..Number::default() });
            }
        },
        None => {},
    }
    if let Some((neg, mag)) = parsed {
        if mag <= i64::MAX as u128 || (neg && mag == i64::MAX as u128 + 1) {
            let v: i64 = if neg {
                if mag == i64::MAX as u128 + 1 {
                    i64::MIN
                } else {
                    -(mag as i64)
                }
            } else {
                mag as i64
            };
            return Ok(Number { i64_val: Some(v), ..Number::default() });
        }
        if mag <= i128::MAX as u128 || (neg && mag == i128::MAX as u128 + 1) {
            let v: i128 = if neg {
                if mag == i128::MAX as u128 + 1 {
                    i128::MIN
                } else {
                    -(mag as i128)
                }
            } else {
                mag as i128
            };
            return Ok(Number { i128_val: Some(v), ..Number::default() });
        }
        if !neg {
            return Ok(Number { u128_val: Some(mag), ..Number::default() });
        }
    }
    Err(Error::NotNumber)
}

impl TryFrom<&str> for Number {
    type Error = Error;

    fn try_from(value: &str) -> (r: Result<Self, Error>)
        ensures
            r == number_from_text_spec(value@),
    {
        let cs = str_to_chars(value);
        number_from_chars(&cs)
    }
}

impl vstd::std_specs::convert::TryFromSpecImpl<&str> for Number {
    open spec fn obeys_try_from_spec() -> bool {
        true
    }

    open spec fn try_from_spec(value: &str) -> Result<Number, Error> {
        number_from_text_spec(value@)
    }
}

impl TryFrom<String> for Number {
    type Error = Error;

    fn try_from(value: String) -> (r: Result<Self, Error>)
        ensures
            r == number_from_text_spec(value@),
    {
        let cs = str_to_chars(value.as_str());
        number_from_chars(&cs)
    }
}

impl vstd::std_specs::convert::TryFromSpecImpl<String> for Number {
    open spec fn obeys_try_from_spec() -> bool {
        true
    }

    open spec fn try_from_spec(value: String) -> Result<Number, Error> {
        number_from_text_spec(value@)
    }
}

} // verus!
