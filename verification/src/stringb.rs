//! `StringB`, the library's owned UTF-8 string with manipulation methods, and
//! the `StringBehavior` capability it shares with `Value`.
use crate::text::{chars_to_string, str_to_chars};
use vstd::prelude::*;

verus! {

/// The UTF-8 byte length of a character sequence.
pub open spec fn byte_len(s: Seq<char>) -> nat {
    vstd::utf8::encode_utf8(s).len()
}

/// What `str::to_uppercase` returns for a given character sequence.
pub uninterp spec fn upper_chars(s: Seq<char>) -> Seq<char>;

/// What `str::to_lowercase` returns for a given character sequence.
pub uninterp spec fn lower_chars(s: Seq<char>) -> Seq<char>;

/// What `str::trim` returns for a given character sequence.
pub uninterp spec fn trimmed_chars(s: Seq<char>) -> Seq<char>;

/// Relies on `str::to_uppercase`: the result depends on the characters alone,
/// and an empty string stays empty.
#[verifier::external_body]
fn to_uppercase_str(s: &str) -> (r: String)
    ensures
        r@ == upper_chars(s@),
        s@.len() == 0 ==> r@.len() == 0,
{
    s.to_uppercase()
}

/// Relies on `str::to_lowercase`: the result depends on the characters alone,
/// and an empty string stays empty.
#[verifier::external_body]
fn to_lowercase_str(s: &str) -> (r: String)
    ensures
        r@ == lower_chars(s@),
        s@.len() == 0 ==> r@.len() == 0,
{
    s.to_lowercase()
}

/// Relies on `str::trim`: the result depends on the characters alone and is a
/// contiguous part of the input.
#[verifier::external_body]
fn trim_str(s: &str) -> (r: &str)
    ensures
        r@ == trimmed_chars(s@),
        s@.len() == 0 ==> r@.len() == 0,
{
    s.trim()
}

/// The result of replacing every non-overlapping occurrence of `pat` by `to`,
/// scanning left to right; an empty pattern matches before every character
/// and at the end, as std's `str::replace` does.
pub open spec fn replace_chars(s: Seq<char>, pat: Seq<char>, to: Seq<char>) -> Seq<char>
    decreases s.len(),
{
    if pat.len() == 0 {
        if s.len() == 0 {
            to
        } else {
            to + seq![s[0]] + replace_chars(s.drop_first(), pat, to)
        }
    } else if s.len() < pat.len() {
        s
    } else if s.take(pat.len() as int) == pat {
        to + replace_chars(s.skip(pat.len() as int), pat, to)
    } else {
        seq![s[0]] + replace_chars(s.drop_first(), pat, to)
    }
}

/// Whether `pat` occurs in `s` at position `i`.
fn matches_at(s: &Vec<char>, i: usize, pat: &Vec<char>) -> (r: bool)
    requires
        i <= s@.len(),
    ensures
        r == (i + pat@.len() <= s@.len() && s@.skip(i as int).take(pat@.len() as int) == pat@),
{
    let n = s.len();
    if pat.len() > n - i {
        return false;
    }
    let mut k: usize = 0;
    while k < pat.len()
        invariant
            0 <= k <= pat@.len(),
            n == s@.len(),
            i + pat@.len() <= n,
            forall|m: int| 0 <= m < k ==> s@[i + m] == pat@[m],
        decreases pat@.len() - k,
    {
        assert(i + k < n);
        if s[i + k] != pat[k] {
            assert(s@.skip(i as int).take(pat@.len() as int)[k as int] != pat@[k as int]);
            return false;
        }
        k = k + 1;
    }
    assert(s@.skip(i as int).take(pat@.len() as int) =~= pat@);
    true
}

/// Replaces every occurrence of `pat` by `to`, as `replace_chars` describes.
fn replace_in_chars(s: &Vec<char>, pat: &Vec<char>, to: &Vec<char>) -> (r: Vec<char>)
    ensures
        r@ == replace_chars(s@, pat@, to@),
{
    let mut out: Vec<char> = Vec::new();
    let mut i: usize = 0;
    assert(s@.skip(0) =~= s@);
    assert(out@ + replace_chars(s@, pat@, to@) =~= replace_chars(s@, pat@, to@));
    while i < s.len()
        invariant
            0 <= i <= s@.len(),
            replace_chars(s@, pat@, to@) == out@ + replace_chars(
                s@.skip(i as int),
                pat@,
                to@,
            ),
        decreases s@.len() - i,
    {
        let ghost rest = s@.skip(i as int);
        if pat.len() == 0 {
            let ghost out0 = out@;
            let mut k: usize = 0;
            while k < to.len()
                invariant
                    0 <= k <= to@.len(),
                    out@ == out0 + to@.subrange(0, k as int),
                decreases to@.len() - k,
            {
                out.push(to[k]);
                assert(out@ =~= out0 + to@.subrange(0, k + 1int));
                k = k + 1;
            }
            out.push(s[i]);
            proof {
                assert(rest.drop_first() =~= s@.skip(i + 1int));
                assert(rest[0] == s@[i as int]);
                assert(replace_chars(rest, pat@, to@) == to@ + seq![s@[i as int]]
                    + replace_chars(s@.skip(i + 1int), pat@, to@));
                assert(out@ =~= out0 + to@ + seq![s@[i as int]]);
                assert(out0 + (to@ + seq![s@[i as int]] + replace_chars(
                    s@.skip(i + 1int),
                    pat@,
                    to@,
                )) =~= out@ + replace_chars(s@.skip(i + 1int), pat@, to@));
            }
            i = i + 1;
        } else if matches_at(s, i, pat) {
            let ghost out0 = out@;
            let mut k: usize = 0;
            while k < to.len()
                invariant
                    0 <= k <= to@.len(),
                    out@ == out0 + to@.subrange(0, k as int),
                decreases to@.len() - k,
            {
                out.push(to[k]);
                assert(out@ =~= out0 + to@.subrange(0, k + 1int));
                k = k + 1;
            }
            assert(out@ =~= out0 + to@);
            proof {
                assert(rest.take(pat@.len() as int) == pat@);
                assert(rest.skip(pat@.len() as int) =~= s@.skip(i + pat@.len()));
                assert(replace_chars(rest, pat@, to@) == to@ + replace_chars(
                    s@.skip(i + pat@.len()),
                    pat@,
                    to@,
                ));
                assert(out0 + (to@ + replace_chars(s@.skip(i + pat@.len()), pat@, to@)) =~= out@
                    + replace_chars(s@.skip(i + pat@.len()), pat@, to@));
            }
            i = i + pat.len();
        } else {
            out.push(s[i]);
            proof {
                assert(rest.len() > 0);
                assert(rest.drop_first() =~= s@.skip(i + 1int));
                assert(rest[0] == s@[i as int]);
                if rest.len() >= pat@.len() {
                    assert(rest.take(pat@.len() as int) != pat@);
                } else {
                    assert(replace_chars(rest, pat@, to@) == rest);
                    assert(replace_chars(rest.drop_first(), pat@, to@) == rest.drop_first());
                    assert(rest =~= seq![rest[0]] + rest.drop_first());
                }
                assert(replace_chars(rest, pat@, to@) == seq![s@[i as int]] + replace_chars(
                    s@.skip(i + 1int),
                    pat@,
                    to@,
                ));
            }
            i = i + 1;
        }
    }
    proof {
        assert(s@.skip(i as int) =~= Seq::<char>::empty());
        if pat@.len() == 0 {
            assert(replace_chars(s@.skip(i as int), pat@, to@) == to@);
        } else {
            assert(replace_chars(s@.skip(i as int), pat@, to@) =~= Seq::<char>::empty());
        }
    }
    if pat.len() == 0 {
        let ghost out0 = out@;
        let mut k: usize = 0;
        while k < to.len()
            invariant
                0 <= k <= to@.len(),
                out@ == out0 + to@.subrange(0, k as int),
            decreases to@.len() - k,
        {
            out.push(to[k]);
            assert(out@ =~= out0 + to@.subrange(0, k + 1int));
            k = k + 1;
        }
        assert(out@ =~= out0 + to@);
    }
    assert(out@ =~= replace_chars(s@, pat@, to@));
    out
}

/// The capability of a value that carries string content.
pub trait StringBehavior: Sized {
    /// The receiver holds string content.
    spec fn string_ok(&self) -> bool;

    /// The character content.
    spec fn chars_spec(&self) -> Seq<char>;

    /// The bytes of the content, UTF-8 encoded.
    fn as_bytes(&self) -> (r: &[u8])
        requires
            self.string_ok(),
        ensures
            r@ == vstd::utf8::encode_utf8(self.chars_spec()),
    ;

    /// The content as a string slice.
    fn as_str(&self) -> (r: &str)
        requires
            self.string_ok(),
        ensures
            r@ == self.chars_spec(),
    ;

    /// The content as an owned string.
    fn as_string(&self) -> (r: String)
        requires
            self.string_ok(),
        ensures
            r@ == self.chars_spec(),
    ;

    /// The content moved out as an owned string.
    fn extract(&self) -> (r: String)
        requires
            self.string_ok(),
        ensures
            r@ == self.chars_spec(),
    ;

    /// The content with every character uppercased.
    fn to_uppercase(&self) -> (r: Self)
        requires
            self.string_ok(),
        ensures
            r.string_ok(),
            r.chars_spec() == upper_chars(self.chars_spec()),
    ;

    /// The content with every character lowercased.
    fn to_lowercase(&self) -> (r: Self)
        requires
            self.string_ok(),
        ensures
            r.string_ok(),
            r.chars_spec() == lower_chars(self.chars_spec()),
    ;

    /// The content without leading and trailing whitespace.
    fn trim(&self) -> (r: Self)
        requires
            self.string_ok(),
        ensures
            r.string_ok(),
            r.chars_spec() == trimmed_chars(self.chars_spec()),
    ;

    /// The content with every occurrence of `from` replaced by `to`.
    fn replace(&self, from: &str, to: &str) -> (r: Self)
        requires
            self.string_ok(),
        ensures
            r.string_ok(),
            r.chars_spec() == replace_chars(self.chars_spec(), from@, to@),
    ;

    /// The content followed by `other`.
    fn concat(&self, other: &str) -> (r: Self)
        requires
            self.string_ok(),
        ensures
            r.string_ok(),
            r.chars_spec() == self.chars_spec() + other@,
    ;

    /// A value built from UTF-8 bytes.
    fn from_utf8(value: Vec<u8>) -> (r: Self)
        requires
            vstd::utf8::valid_utf8(value@),
        ensures
            r.string_ok(),
            r.chars_spec() == vstd::utf8::decode_utf8(value@),
    ;
}

/// An owned UTF-8 string with extra manipulation methods.
#[derive(Debug, Hash)]
pub struct StringB {
    pub value: String,
}

impl View for StringB {
    type V = Seq<char>;

    open spec fn view(&self) -> Seq<char> {
        self.value@
    }
}

impl Clone for StringB {
    fn clone(&self) -> (r: Self)
        ensures
            r@ == self@,
    {
        StringB { value: self.value.clone() }
    }
}

impl PartialEq for StringB {
    fn eq(&self, other: &Self) -> (r: bool) {
        self.value.eq(&other.value)
    }
}

impl vstd::std_specs::cmp::PartialEqSpecImpl for StringB {
    open spec fn obeys_eq_spec() -> bool {
        true
    }

    open spec fn eq_spec(&self, other: &StringB) -> bool {
        self.value@ == other.value@
    }
}

impl Default for StringB {
    fn default() -> (r: Self)
        ensures
            r@ == Seq::<char>::empty(),
    {
        StringB { value: String::new() }
    }
}

impl StringB {
    /// The byte length of the content.
    pub fn len(&self) -> (r: usize)
        ensures
            r == byte_len(self@) as usize,
            byte_len(self@) <= usize::MAX ==> r == byte_len(self@),
    {
        self.value.as_str().len()
    }

    /// Whether the content has no characters.
    pub fn is_empty(&self) -> (r: bool)
        ensures
            r == (self@.len() == 0),
    {
        self.value.as_str().is_empty()
    }

    /// The content as an owned string.
    pub fn as_string(&self) -> (r: String)
        ensures
            r@ == self@,
    {
        self.value.clone()
    }
}

/// A character sequence encodes to no bytes exactly when it has no characters.
pub proof fn lemma_byte_len_zero(s: Seq<char>)
    ensures
        (byte_len(s) == 0) <==> (s.len() == 0),
{
    if s.len() > 0 {
        vstd::utf8::encode_utf8_first_scalar(s);
        assert(vstd::utf8::encode_utf8(s).len() > 0);
    }
}

impl StringBehavior for StringB {
    open spec fn string_ok(&self) -> bool {
        true
    }

    open spec fn chars_spec(&self) -> Seq<char> {
        self.value@
    }

    fn as_bytes(&self) -> (r: &[u8]) {
        self.value.as_str().as_bytes()
    }

    fn as_str(&self) -> (r: &str) {
        self.value.as_str()
    }

    fn as_string(&self) -> (r: String) {
        self.value.clone()
    }

    fn extract(&self) -> (r: String) {
        self.value.clone()
    }

    fn to_uppercase(&self) -> (r: Self) {
        StringB { value: to_uppercase_str(self.value.as_str()) }
    }

    fn to_lowercase(&self) -> (r: Self) {
        StringB { value: to_lowercase_str(self.value.as_str()) }
    }

    fn trim(&self) -> (r: Self) {
        StringB { value: trim_str(self.value.as_str()).to_owned() }
    }

    fn replace(&self, from: &str, to: &str) -> (r: Self) {
        let s = str_to_chars(self.value.as_str());
        let pat = str_to_chars(from);
        let by = str_to_chars(to);
        let out = replace_in_chars(&s, &pat, &by);
        StringB { value: chars_to_string(&out) }
    }

    fn concat(&self, other: &str) -> (r: Self) {
        let mut value = self.value.clone();
        value.append(other);
        StringB { value }
    }

    fn from_utf8(value: Vec<u8>) -> (r: Self) {
        StringB { value: string_from_utf8(value) }
    }
}

/// Relies on `String::from_utf8`: on valid UTF-8 bytes it returns the decoded
/// string.
#[verifier::external_body]
fn string_from_utf8(value: Vec<u8>) -> (r: String)
    requires
        vstd::utf8::valid_utf8(value@),
    ensures
        r@ == vstd::utf8::decode_utf8(value@),
{
    match String::from_utf8(value) {
        Ok(s) => s,
        Err(_) => String::new(),
    }
}

impl From<String> for StringB {
    fn from(value: String) -> (r: Self)
        ensures
            r@ == value@,
    {
        StringB { value }
    }
}

impl vstd::std_specs::convert::FromSpecImpl<String> for StringB {
    open spec fn obeys_from_spec() -> bool {
        true
    }

    open spec fn from_spec(value: String) -> StringB {
        StringB { value }
    }
}

impl From<&str> for StringB {
    fn from(value: &str) -> (r: Self)
        ensures
            r@ == value@,
    {
        StringB { value: value.to_owned() }
    }
}

impl vstd::std_specs::convert::FromSpecImpl<&str> for StringB {
    open spec fn obeys_from_spec() -> bool {
        false
    }

    open spec fn from_spec(value: &str) -> StringB {
        arbitrary()
    }
}

} // verus!
