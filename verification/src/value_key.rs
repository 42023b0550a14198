//! `ValueKey`, the key type of objects: a string, or a numeric index.
use crate::stringb::StringB;
use crate::text::{chars_lt, chars_to_string, dec_nat, fmt_u128, lex_lt, str_to_chars};
use vstd::prelude::*;

verus! {

/// The mathematical shape of a key: its text, or its index.
pub enum KeyModel {
    Text(Seq<char>),
    Index(usize),
}

/// A key of an object: a string key, or a numeric index key.
#[derive(Debug, Hash)]
pub enum ValueKey {
    String(StringB),
    Number(usize),
}

impl View for ValueKey {
    type V = KeyModel;

    open spec fn view(&self) -> KeyModel {
        match self {
            ValueKey::String(s) => KeyModel::Text(s@),
            ValueKey::Number(n) => KeyModel::Index(*n),
        }
    }
}

impl Clone for ValueKey {
    fn clone(&self) -> (r: Self)
        ensures
            r@ == self@,
    {
        match self {
            ValueKey::String(s) => ValueKey::String(s.clone()),
            ValueKey::Number(n) => ValueKey::Number(*n),
        }
    }
}

impl PartialEq for ValueKey {
    fn eq(&self, other: &Self) -> (r: bool) {
        match (self, other) {
            (ValueKey::String(a), ValueKey::String(b)) => a.eq(b),
            (ValueKey::Number(a), ValueKey::Number(b)) => a == b,
            _ => false,
        }
    }
}

impl vstd::std_specs::cmp::PartialEqSpecImpl for ValueKey {
    open spec fn obeys_eq_spec() -> bool {
        true
    }

    open spec fn eq_spec(&self, other: &ValueKey) -> bool {
        self@ == other@
    }
}

/// The text of a key: a string key's content, an index key's decimal digits.
pub open spec fn key_chars(k: KeyModel) -> Seq<char> {
    match k {
        KeyModel::Text(s) => s,
        KeyModel::Index(n) => dec_nat(n as nat),
    }
}

/// The strict order on keys: string keys first, ordered by their text, then
/// index keys, ordered by value.
pub open spec fn key_lt(a: KeyModel, b: KeyModel) -> bool {
    match (a, b) {
        (KeyModel::Text(x), KeyModel::Text(y)) => lex_lt(x, y),
        (KeyModel::Text(_), KeyModel::Index(_)) => true,
        (KeyModel::Index(_), KeyModel::Text(_)) => false,
        (KeyModel::Index(x), KeyModel::Index(y)) => x < y,
    }
}

/// Keys that are not ordered either way are equal.
pub proof fn lemma_key_lt_trichotomy(a: KeyModel, b: KeyModel)
    ensures
        key_lt(a, b) ==> !key_lt(b, a) && a != b,
        !key_lt(a, b) && !key_lt(b, a) ==> a == b,
{
    match (a, b) {
        (KeyModel::Text(x), KeyModel::Text(y)) => {
            crate::text::lemma_lex_lt_trichotomy(x, y);
        },
        _ => {},
    }
}

impl ValueKey {
    /// The key's text as a `StringB`: the content of a string key, the
    /// decimal digits of an index key.
    pub fn as_string_b(&self) -> (r: StringB)
        ensures
            r@ == key_chars(self@),
    {
        match self {
            ValueKey::String(s) => s.clone(),
            ValueKey::Number(n) => StringB {
                value: chars_to_string(&fmt_u128(*n as u128)),
            },
        }
    }

    /// The key's text as an owned string.
    pub fn as_string(&self) -> (r: String)
        ensures
            r@ == key_chars(self@),
    {
        let sb = self.as_string_b();
        sb.value
    }

    /// The index an index key carries; a string key carries none.
    pub fn to_usize(&self) -> (r: usize)
        requires
            self@ is Index,
        ensures
            self@ == KeyModel::Index(r),
    {
        match self {
            ValueKey::String(_) => unreached(),
            ValueKey::Number(n) => *n,
        }
    }

    /// Decides the key order `key_lt`.
    pub fn lt(&self, other: &ValueKey) -> (r: bool)
        ensures
            r == key_lt(self@, other@),
    {
        match (self, other) {
            (ValueKey::String(a), ValueKey::String(b)) => {
                let x = str_to_chars(a.value.as_str());
                let y = str_to_chars(b.value.as_str());
                chars_lt(&x, &y)
            },
            (ValueKey::String(_), ValueKey::Number(_)) => true,
            (ValueKey::Number(_), ValueKey::String(_)) => false,
            (ValueKey::Number(a), ValueKey::Number(b)) => a < b,
        }
    }

    /// Decides key equality on the models.
    pub fn same_key(&self, other: &ValueKey) -> (r: bool)
        ensures
            r == (self@ == other@),
    {
        match (self, other) {
            (ValueKey::String(a), ValueKey::String(b)) => a.value.eq(&b.value),
            (ValueKey::Number(a), ValueKey::Number(b)) => a == b,
            _ => false,
        }
    }
}

impl From<String> for ValueKey {
    fn from(s: String) -> (r: Self)
        ensures
            r@ == KeyModel::Text(s@),
    {
        ValueKey::String(StringB { value: s })
    }
}

impl vstd::std_specs::convert::FromSpecImpl<String> for ValueKey {
    open spec fn obeys_from_spec() -> bool {
        true
    }

    open spec fn from_spec(s: String) -> ValueKey {
        ValueKey::String(StringB { value: s })
    }
}

impl From<&str> for ValueKey {
    fn from(s: &str) -> (r: Self)
        ensures
            r@ == KeyModel::Text(s@),
    {
        ValueKey::String(StringB { value: s.to_owned() })
    }
}

impl vstd::std_specs::convert::FromSpecImpl<&str> for ValueKey {
    open spec fn obeys_from_spec() -> bool {
        false
    }

    open spec fn from_spec(s: &str) -> ValueKey {
        arbitrary()
    }
}

impl From<u32> for ValueKey {
    fn from(n: u32) -> (r: Self)
        ensures
            r@ == KeyModel::Index(n as usize),
    {
        ValueKey::Number(n as usize)
    }
}

impl vstd::std_specs::convert::FromSpecImpl<u32> for ValueKey {
    open spec fn obeys_from_spec() -> bool {
        true
    }

    open spec fn from_spec(n: u32) -> ValueKey {
        ValueKey::Number(n as usize)
    }
}

/// `key_lt` is transitive.
pub proof fn lemma_key_lt_trans(a: KeyModel, b: KeyModel, c: KeyModel)
    requires
        key_lt(a, b),
        key_lt(b, c),
    ensures
        key_lt(a, c),
{
    match (a, b, c) {
        (KeyModel::Text(x), KeyModel::Text(y), KeyModel::Text(z)) => {
            crate::text::lemma_lex_lt_trans(x, y, z);
        },
        _ => {},
    }
}

} // verus!
