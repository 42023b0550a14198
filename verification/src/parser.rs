//! The JSON reader: a recursive-descent parser over characters, specified by
//! a functional parser on character sequences and proved to follow it.
use crate::number::{number_from_chars, number_from_text_spec};
use crate::object::{model_insert_all, Object};
use crate::stringb::StringB;
use crate::text::{is_dec_digit, str_to_chars};
use crate::value::{model_insert, ObjModel, Value, ValueModel};
use crate::value_key::{KeyModel, ValueKey};
use crate::Error;
use vstd::prelude::*;

verus! {

/// The whitespace the grammar skips between tokens.
pub open spec fn is_ws(c: char) -> bool {
    c == ' ' || c == '\t' || c == '\n' || c == '\r'
}

/// The first position at or after `i` holding no whitespace.
pub open spec fn sp_ws(s: Seq<char>, i: int) -> int
    decreases s.len() - i,
{
    if 0 <= i < s.len() && is_ws(s[i]) {
        sp_ws(s, i + 1)
    } else {
        i
    }
}

/// A hexadecimal digit.
pub open spec fn is_hex(c: char) -> bool {
    is_dec_digit(c) || (97 <= c as u32 && c as u32 <= 102) || (65 <= c as u32 && c as u32 <= 70)
}

/// A character allowed after a backslash in a string.
pub open spec fn is_escape_char(c: char) -> bool {
    c == '"' || c == '\\' || c == '/' || c == 'b' || c == 'f' || c == 'n' || c == 'r' || c == 't'
        || c == 'u'
}

/// The inner text of a string from a position after the opening quote: the
/// raw characters up to the closing quote, escapes kept as written, and the
/// position after that quote.
pub open spec fn sp_string_body(s: Seq<char>, i: int) -> Option<(Seq<char>, int)>
    decreases s.len() - i,
{
    if i < 0 || i >= s.len() {
        None
    } else if s[i] == '"' {
        Some((Seq::empty(), i + 1))
    } else if s[i] == '\\' {
        if i + 1 < s.len() && is_escape_char(s[i + 1]) {
            if s[i + 1] == 'u' {
                if i + 5 < s.len() && is_hex(s[i + 2]) && is_hex(s[i + 3]) && is_hex(s[i + 4])
                    && is_hex(s[i + 5]) {
                    match sp_string_body(s, i + 6) {
                        Some((rest, end)) => Some((s.subrange(i, i + 6) + rest, end)),
                        None => None,
                    }
                } else {
                    None
                }
            } else {
                match sp_string_body(s, i + 2) {
                    Some((rest, end)) => Some((seq![s[i], s[i + 1]] + rest, end)),
                    None => None,
                }
            }
        } else {
            None
        }
    } else {
        match sp_string_body(s, i + 1) {
            Some((rest, end)) => Some((seq![s[i]] + rest, end)),
            None => None,
        }
    }
}

/// The first position at or after `i` holding no decimal digit.
pub open spec fn digits_end(s: Seq<char>, i: int) -> int
    decreases s.len() - i,
{
    if 0 <= i < s.len() && is_dec_digit(s[i]) {
        digits_end(s, i + 1)
    } else {
        i
    }
}

/// Where a number token starting at `i` ends: an optional minus sign, an
/// integer part without a superfluous leading zero, an optional fraction and
/// an optional exponent; nothing when no number starts there.
pub open spec fn sp_number_end(s: Seq<char>, i: int) -> Option<int> {
    let a = if 0 <= i < s.len() && s[i] == '-' {
        i + 1
    } else {
        i
    };
    if !(0 <= a < s.len() && is_dec_digit(s[a])) {
        None
    } else {
        let b = if s[a] == '0' {
            a + 1
        } else {
            digits_end(s, a)
        };
        let c = if b < s.len() && s[b] == '.' && b + 1 < s.len() && is_dec_digit(s[b + 1]) {
            digits_end(s, b + 1)
        } else {
            b
        };
        let d = if c < s.len() && (s[c] == 'e' || s[c] == 'E') {
            let e0 = if c + 1 < s.len() && (s[c + 1] == '+' || s[c + 1] == '-') {
                c + 2
            } else {
                c + 1
            };
            if e0 < s.len() && is_dec_digit(s[e0]) {
                digits_end(s, e0)
            } else {
                c
            }
        } else {
            c
        };
        Some(d)
    }
}

/// The word `w` stands at position `i`.
pub open spec fn token_at(s: Seq<char>, i: int, w: Seq<char>) -> bool {
    0 <= i && i + w.len() <= s.len() && s.subrange(i, i + w.len()) == w
}

/// The value production, with fuel bounding the nesting.
pub open spec fn sp_value(s: Seq<char>, i: int, fuel: nat) -> Option<(ValueModel, int)>
    decreases fuel,
{
    if fuel == 0 {
        None
    } else {
        let j = sp_ws(s, i);
        if j >= s.len() {
            None
        } else if s[j] == '{' {
            match sp_members(s, j + 1, (fuel - 1) as nat) {
                Some((pairs, end)) => Some(
                    (
                        ValueModel::Record(
                            ObjModel {
                                sorted: false,
                                entries: model_insert_all(
                                    Seq::<(KeyModel, ValueModel)>::empty(),
                                    false,
                                    pairs,
                                ),
                            },
                        ),
                        end,
                    ),
                ),
                None => None,
            }
        } else if s[j] == '[' {
            match sp_elems(s, j + 1, (fuel - 1) as nat) {
                Some((items, end)) => Some((ValueModel::List(items), end)),
                None => None,
            }
        } else if s[j] == '"' {
            match sp_string_body(s, j + 1) {
                Some((content, end)) => Some((ValueModel::Text(content), end)),
                None => None,
            }
        } else if token_at(s, j, seq!['t', 'r', 'u', 'e']) {
            Some((ValueModel::Flag(true), j + 4))
        } else if token_at(s, j, seq!['f', 'a', 'l', 's', 'e']) {
            Some((ValueModel::Flag(false), j + 5))
        } else if token_at(s, j, seq!['n', 'u', 'l', 'l']) {
            Some((ValueModel::Nothing, j + 4))
        } else {
            match sp_number_end(s, j) {
                Some(end) => match number_from_text_spec(s.subrange(j, end)) {
                    Ok(n) => Some((ValueModel::Num(n), end)),
                    Err(_) => None,
                },
                None => None,
            }
        }
    }
}

/// One `"key": value` pair.
pub open spec fn sp_pair(s: Seq<char>, i: int, fuel: nat) -> Option<((KeyModel, ValueModel), int)>
    decreases fuel,
{
    if fuel == 0 {
        None
    } else {
        let j = sp_ws(s, i);
        if j < s.len() && s[j] == '"' {
            match sp_string_body(s, j + 1) {
                Some((key, e1)) => {
                    let k = sp_ws(s, e1);
                    if k < s.len() && s[k] == ':' {
                        match sp_value(s, k + 1, (fuel - 1) as nat) {
                            Some((v, end)) => Some(((KeyModel::Text(key), v), end)),
                            None => None,
                        }
                    } else {
                        None
                    }
                },
                None => None,
            }
        } else {
            None
        }
    }
}

/// The members of an object after the opening brace: the raw pairs in text
/// order, and the position after the closing brace.
pub open spec fn sp_members(s: Seq<char>, i: int, fuel: nat) -> Option<
    (Seq<(KeyModel, ValueModel)>, int),
>
    decreases fuel,
{
    if fuel == 0 {
        None
    } else {
        let j = sp_ws(s, i);
        if j < s.len() && s[j] == '}' {
            Some((Seq::empty(), j + 1))
        } else {
            match sp_pair(s, i, (fuel - 1) as nat) {
                Some((pair, end)) => match sp_members_rest(s, end, (fuel - 1) as nat) {
                    Some((pairs, e2)) => Some((seq![pair] + pairs, e2)),
                    None => None,
                },
                None => None,
            }
        }
    }
}

/// The members after one pair: a closing brace, or a comma and more pairs.
pub open spec fn sp_members_rest(s: Seq<char>, i: int, fuel: nat) -> Option<
    (Seq<(KeyModel, ValueModel)>, int),
>
    decreases fuel,
{
    if fuel == 0 {
        None
    } else {
        let j = sp_ws(s, i);
        if j >= s.len() {
            None
        } else if s[j] == '}' {
            Some((Seq::empty(), j + 1))
        } else if s[j] == ',' {
            match sp_pair(s, j + 1, (fuel - 1) as nat) {
                Some((pair, end)) => match sp_members_rest(s, end, (fuel - 1) as nat) {
                    Some((pairs, e2)) => Some((seq![pair] + pairs, e2)),
                    None => None,
                },
                None => None,
            }
        } else {
            None
        }
    }
}

/// The elements of an array after the opening bracket.
pub open spec fn sp_elems(s: Seq<char>, i: int, fuel: nat) -> Option<(Seq<ValueModel>, int)>
    decreases fuel,
{
    if fuel == 0 {
        None
    } else {
        let j = sp_ws(s, i);
        if j < s.len() && s[j] == ']' {
            Some((Seq::empty(), j + 1))
        } else {
            match sp_value(s, i, (fuel - 1) as nat) {
                Some((v, end)) => match sp_elems_rest(s, end, (fuel - 1) as nat) {
                    Some((items, e2)) => Some((seq![v] + items, e2)),
                    None => None,
                },
                None => None,
            }
        }
    }
}

/// The elements after one value: a closing bracket, or a comma and more
/// values.
pub open spec fn sp_elems_rest(s: Seq<char>, i: int, fuel: nat) -> Option<(Seq<ValueModel>, int)>
    decreases fuel,
{
    if fuel == 0 {
        None
    } else {
        let j = sp_ws(s, i);
        if j >= s.len() {
            None
        } else if s[j] == ']' {
            Some((Seq::empty(), j + 1))
        } else if s[j] == ',' {
            match sp_value(s, j + 1, (fuel - 1) as nat) {
                Some((v, end)) => match sp_elems_rest(s, end, (fuel - 1) as nat) {
                    Some((items, e2)) => Some((seq![v] + items, e2)),
                    None => None,
                },
                None => None,
            }
        } else {
            None
        }
    }
}

/// The fuel that always suffices: parsing advances at least one position for
/// every three productions entered.
pub open spec fn fuel_for(s: Seq<char>, i: int) -> nat {
    (3 * (s.len() - i) + 3) as nat
}

/// The text holds only whitespace.
pub open spec fn parse_blank(s: Seq<char>) -> bool {
    sp_ws(s, 0) == s.len()
}

/// What parsing a whole text yields: a value followed by nothing but
/// whitespace, or nothing.
pub open spec fn parse_outcome(s: Seq<char>) -> Option<ValueModel> {
    match sp_value(s, 0, fuel_for(s, 0)) {
        Some((m, end)) => if sp_ws(s, end) == s.len() {
            Some(m)
        } else {
            None
        },
        None => None,
    }
}

// ---------------------------------------------------------------------------
// The executable parser, proved to follow the functional one.
// ---------------------------------------------------------------------------

/// Skips whitespace, as `sp_ws` describes.
fn ws_skip(s: &Vec<char>, i: usize) -> (r: usize)
    requires
        i <= s@.len(),
    ensures
        r as int == sp_ws(s@, i as int),
        i <= r <= s@.len(),
{
    let mut k: usize = i;
    while k < s.len() && (s[k] == ' ' || s[k] == '\t' || s[k] == '\n' || s[k] == '\r')
        invariant
            i <= k <= s@.len(),
            sp_ws(s@, i as int) == sp_ws(s@, k as int),
        decreases s@.len() - k,
    {
        k = k + 1;
    }
    k
}

/// Reads a string body, as `sp_string_body` describes.
fn read_string_body(s: &Vec<char>, i: usize) -> (r: Option<(Vec<char>, usize)>)
    requires
        i <= s@.len(),
    ensures
        match r {
            Some(p) => sp_string_body(s@, i as int) == Some((p.0@, p.1 as int)) && i < p.1
                <= s@.len(),
            None => sp_string_body(s@, i as int) is None,
        },
    decreases s@.len() - i,
{
    if i >= s.len() {
        return None;
    }
    let c = s[i];
    if c == '"' {
        let content: Vec<char> = Vec::new();
        assert(content@ =~= Seq::<char>::empty());
        return Some((content, i + 1));
    }
    if c == '\\' {
        if i + 1 >= s.len() {
            return None;
        }
        let e = s[i + 1];
        if !(e == '"' || e == '\\' || e == '/' || e == 'b' || e == 'f' || e == 'n' || e == 'r' || e
            == 't' || e == 'u') {
            return None;
        }
        if e == 'u' {
            if s.len() - i <= 5 {
                return None;
            }
            assert(i + 5 < s@.len());
            if !(hex_digit(s[i + 2]) && hex_digit(s[i + 3]) && hex_digit(s[i + 4]) && hex_digit(
                s[i + 5],
            )) {
                return None;
            }
            match read_string_body(s, i + 6) {
                Some((rest, end)) => {
                    let mut content: Vec<char> = Vec::new();
                    content.push(s[i]);
                    content.push(s[i + 1]);
                    content.push(s[i + 2]);
                    content.push(s[i + 3]);
                    content.push(s[i + 4]);
                    content.push(s[i + 5]);
                    crate::to::json::push_chars(&mut content, &rest);
                    proof {
                        assert(content@ =~= s@.subrange(i as int, i + 6int) + rest@);
                    }
                    return Some((content, end));
                },
                None => {
                    return None;
                },
            }
        }
        match read_string_body(s, i + 2) {
            Some((rest, end)) => {
                let mut content: Vec<char> = Vec::new();
                content.push(s[i]);
                content.push(s[i + 1]);
                crate::to::json::push_chars(&mut content, &rest);
                proof {
                    assert(content@ =~= seq![s@[i as int], s@[i + 1int]] + rest@);
                }
                return Some((content, end));
            },
            None => {
                return None;
            },
        }
    }
    match read_string_body(s, i + 1) {
        Some((rest, end)) => {
            let mut content: Vec<char> = Vec::new();
            content.push(c);
            crate::to::json::push_chars(&mut content, &rest);
            proof {
                assert(content@ =~= seq![s@[i as int]] + rest@);
            }
            Some((content, end))
        },
        None => None,
    }
}

/// Decides `is_hex`.
fn hex_digit(c: char) -> (r: bool)
    ensures
        r == is_hex(c),
{
    let u = c as u32;
    (48 <= u && u <= 57) || (97 <= u && u <= 102) || (65 <= u && u <= 70)
}

/// Finds the end of a digit run, as `digits_end` describes.
fn digits_run(s: &Vec<char>, i: usize) -> (r: usize)
    requires
        i <= s@.len(),
    ensures
        r as int == digits_end(s@, i as int),
        i <= r <= s@.len(),
{
    let mut k: usize = i;
    while k < s.len() && 48 <= (s[k] as u32) && (s[k] as u32) <= 57
        invariant
            i <= k <= s@.len(),
            digits_end(s@, i as int) == digits_end(s@, k as int),
        decreases s@.len() - k,
    {
        k = k + 1;
    }
    k
}

/// A digit run never ends before it starts.
proof fn lemma_digits_end_lb(s: Seq<char>, i: int)
    ensures
        digits_end(s, i) >= i,
    decreases s.len() - i,
{
    if 0 <= i < s.len() && is_dec_digit(s[i]) {
        lemma_digits_end_lb(s, i + 1);
    }
}

/// Finds the end of a number token, as `sp_number_end` describes.
fn number_token_end(s: &Vec<char>, i: usize) -> (r: Option<usize>)
    requires
        i <= s@.len(),
    ensures
        match r {
            Some(end) => sp_number_end(s@, i as int) == Some(end as int) && i < end <= s@.len(),
            None => sp_number_end(s@, i as int) is None,
        },
{
    let a: usize = if i < s.len() && s[i] == '-' {
        i + 1
    } else {
        i
    };
    if !(a < s.len() && 48 <= (s[a] as u32) && (s[a] as u32) <= 57) {
        return None;
    }
    let b: usize = if s[a] == '0' {
        a + 1
    } else {
        proof {
            lemma_digits_end_lb(s@, a + 1int);
        }
        digits_run(s, a)
    };
    assert(b > a);
    let c: usize = if b < s.len() && s[b] == '.' && b + 1 < s.len() && 48 <= (s[b + 1] as u32) && (
    s[b + 1] as u32) <= 57 {
        digits_run(s, b + 1)
    } else {
        b
    };
    let d: usize = if c < s.len() && (s[c] == 'e' || s[c] == 'E') {
        let e0: usize = if c + 1 < s.len() && (s[c + 1] == '+' || s[c + 1] == '-') {
            c + 2
        } else {
            c + 1
        };
        if e0 < s.len() && 48 <= (s[e0] as u32) && (s[e0] as u32) <= 57 {
            digits_run(s, e0)
        } else {
            c
        }
    } else {
        c
    };
    Some(d)
}

/// The word `w` stands at position `i` of `s`.
fn word_at(s: &Vec<char>, i: usize, w: &Vec<char>) -> (r: bool)
    requires
        i <= s@.len(),
    ensures
        r == token_at(s@, i as int, w@),
{
    let n = s.len();
    if w.len() > n - i {
        return false;
    }
    let mut k: usize = 0;
    while k < w.len()
        invariant
            0 <= k <= w@.len(),
            n == s@.len(),
            i + w@.len() <= n,
            forall|m: int| 0 <= m < k ==> s@[i + m] == w@[m],
        decreases w@.len() - k,
    {
        assert(i + k < n);
        if s[i + k] != w[k] {
            assert(s@.subrange(i as int, i + w@.len())[k as int] != w@[k as int]);
            return false;
        }
        k = k + 1;
    }
    assert(s@.subrange(i as int, i + w@.len()) =~= w@);
    true
}

/// Parses one value, as `sp_value` describes.
fn parse_value_at(s: &Vec<char>, i: usize, Ghost(fuel): Ghost<nat>) -> (r: Option<(Value, usize)>)
    requires
        i <= s@.len(),
        fuel >= 3 * (s@.len() - i) + 1,
    ensures
        match r {
            Some(p) => sp_value(s@, i as int, fuel) == Some((p.0@, p.1 as int)) && i < p.1
                <= s@.len(),
            None => sp_value(s@, i as int, fuel) is None,
        },
    decreases s@.len() - i, 0int,
{
    let j = ws_skip(s, i);
    if j >= s.len() {
        return None;
    }
    let c = s[j];
    if c == '{' {
        match parse_members_at(s, j + 1, Ghost((fuel - 1) as nat)) {
            Some((object, end)) => Some((Value::Object(object), end)),
            None => None,
        }
    } else if c == '[' {
        match parse_elems_at(s, j + 1, Ghost((fuel - 1) as nat)) {
            Some((values, end)) => {
                let v = Value::Array(crate::array::Array { values });
                Some((v, end))
            },
            None => None,
        }
    } else if c == '"' {
        match read_string_body(s, j + 1) {
            Some((content, end)) => {
                let text = crate::text::chars_to_string(&content);
                Some((Value::String(StringB { value: text }), end))
            },
            None => None,
        }
    } else {
        let word_true = str_to_chars("true");
        proof {
            reveal_strlit("true");
            assert(word_true@ =~= seq!['t', 'r', 'u', 'e']);
        }
        if word_at(s, j, &word_true) {
            return Some((Value::Boolean(true), j + 4));
        }
        let word_false = str_to_chars("false");
        proof {
            reveal_strlit("false");
            assert(word_false@ =~= seq!['f', 'a', 'l', 's', 'e']);
        }
        if word_at(s, j, &word_false) {
            return Some((Value::Boolean(false), j + 5));
        }
        let word_null = str_to_chars("null");
        proof {
            reveal_strlit("null");
            assert(word_null@ =~= seq!['n', 'u', 'l', 'l']);
        }
        if word_at(s, j, &word_null) {
            return Some((Value::Null, j + 4));
        }
        match number_token_end(s, j) {
            Some(end) => {
                let mut token: Vec<char> = Vec::new();
                let mut k: usize = j;
                while k < end
                    invariant
                        j <= k <= end <= s@.len(),
                        token@ == s@.subrange(j as int, k as int),
                    decreases end - k,
                {
                    token.push(s[k]);
                    assert(token@ =~= s@.subrange(j as int, k + 1int));
                    k = k + 1;
                }
                match number_from_chars(&token) {
                    Ok(n) => Some((Value::Number(n), end)),
                    Err(_) => None,
                }
            },
            None => None,
        }
    }
}

/// Parses one `"key": value` pair, as `sp_pair` describes.
fn parse_pair_at(s: &Vec<char>, i: usize, Ghost(fuel): Ghost<nat>) -> (r: Option<
    ((ValueKey, Value), usize),
>)
    requires
        i <= s@.len(),
        fuel >= 3 * (s@.len() - i) + 2,
    ensures
        match r {
            Some(p) => sp_pair(s@, i as int, fuel) == Some(((p.0.0@, p.0.1@), p.1 as int)) && i
                < p.1 <= s@.len(),
            None => sp_pair(s@, i as int, fuel) is None,
        },
    decreases s@.len() - i, 1int,
{
    let j = ws_skip(s, i);
    if !(j < s.len() && s[j] == '"') {
        return None;
    }
    match read_string_body(s, j + 1) {
        Some((key, e1)) => {
            let k = ws_skip(s, e1);
            if !(k < s.len() && s[k] == ':') {
                return None;
            }
            match parse_value_at(s, k + 1, Ghost((fuel - 1) as nat)) {
                Some((v, end)) => {
                    let text = crate::text::chars_to_string(&key);
                    Some(((ValueKey::String(StringB { value: text }), v), end))
                },
                None => None,
            }
        },
        None => None,
    }
}

/// Parses an object's members and folds them into an object, insertion by
/// insertion.
fn parse_members_at(s: &Vec<char>, i: usize, Ghost(fuel): Ghost<nat>) -> (r: Option<
    (Object, usize),
>)
    requires
        i <= s@.len(),
        fuel >= 3 * (s@.len() - i) + 3,
    ensures
        match r {
            Some(p) => {
                &&& sp_members(s@, i as int, fuel) is Some
                &&& p.0@.sorted == false
                &&& crate::value::obj_wf(p.0@)
                &&& p.0@.entries == model_insert_all(
                    Seq::<(KeyModel, ValueModel)>::empty(),
                    false,
                    sp_members(s@, i as int, fuel).unwrap().0,
                )
                &&& p.1 as int == sp_members(s@, i as int, fuel).unwrap().1
                &&& i < p.1 <= s@.len()
            },
            None => sp_members(s@, i as int, fuel) is None,
        },
    decreases s@.len() - i, 2int,
{
    let j = ws_skip(s, i);
    if j < s.len() && s[j] == '}' {
        let object = Object::default();
        return Some((object, j + 1));
    }
    match parse_pair_at(s, i, Ghost((fuel - 1) as nat)) {
        Some((pair, end)) => {
            let ghost p0 = (pair.0@, pair.1@);
            let mut object = Object::default();
            object.insert_key(pair.0, pair.1);
            let result = parse_members_more(s, end, object, Ghost((fuel - 1) as nat), Ghost(fuel));
            proof {
                if sp_members_rest(s@, end as int, (fuel - 1) as nat) is Some {
                    let tail = sp_members_rest(s@, end as int, (fuel - 1) as nat).unwrap().0;
                    let pairs = seq![p0] + tail;
                    assert(sp_members(s@, i as int, fuel) is Some);
                    assert(sp_members(s@, i as int, fuel).unwrap().0 == pairs);
                    assert(pairs[0] == p0);
                    assert(pairs.drop_first() =~= tail);
                    assert(model_insert_all(Seq::<(KeyModel, ValueModel)>::empty(), false, pairs)
                        == model_insert_all(
                        model_insert(
                            Seq::<(KeyModel, ValueModel)>::empty(),
                            false,
                            p0.0,
                            p0.1,
                        ),
                        false,
                        tail,
                    ));
                }
            }
            result
        },
        None => None,
    }
}

/// Parses the members after a pair, folding each into the object carried so
/// far.
fn parse_members_more(
    s: &Vec<char>,
    i: usize,
    object: Object,
    Ghost(fuel): Ghost<nat>,
    Ghost(outer): Ghost<nat>,
) -> (r: Option<(Object, usize)>)
    requires
        i <= s@.len(),
        fuel >= 3 * (s@.len() - i) + 3,
        object@.sorted == false,
        crate::value::obj_wf(object@),
    ensures
        match r {
            Some(p) => {
                &&& sp_members_rest(s@, i as int, fuel) is Some
                &&& p.0@.sorted == false
                &&& crate::value::obj_wf(p.0@)
                &&& p.0@.entries == model_insert_all(
                    object@.entries,
                    false,
                    sp_members_rest(s@, i as int, fuel).unwrap().0,
                )
                &&& p.1 as int == sp_members_rest(s@, i as int, fuel).unwrap().1
                &&& i < p.1 <= s@.len()
            },
            None => sp_members_rest(s@, i as int, fuel) is None,
        },
    decreases s@.len() - i, 2int,
{
    let j = ws_skip(s, i);
    if j >= s.len() {
        return None;
    }
    if s[j] == '}' {
        proof {
            let rest = sp_members_rest(s@, i as int, fuel).unwrap().0;
            assert(model_insert_all(object@.entries, false, Seq::<(KeyModel, ValueModel)>::empty())
                == object@.entries);
        }
        return Some((object, j + 1));
    }
    if s[j] != ',' {
        return None;
    }
    match parse_pair_at(s, j + 1, Ghost((fuel - 1) as nat)) {
        Some((pair, end)) => {
            let mut object2 = object;
            let ghost entries0 = object2@.entries;
            object2.insert_key(pair.0, pair.1);
            let result = parse_members_more(s, end, object2, Ghost((fuel - 1) as nat), Ghost(outer));
            proof {
                if sp_members_rest(s@, i as int, fuel) is Some {
                    let pairs = sp_members_rest(s@, i as int, fuel).unwrap().0;
                    let p0 = sp_pair(s@, j + 1int, (fuel - 1) as nat).unwrap().0;
                    let tail = sp_members_rest(
                        s@,
                        sp_pair(s@, j + 1int, (fuel - 1) as nat).unwrap().1,
                        (fuel - 1) as nat,
                    ).unwrap().0;
                    assert(pairs == seq![p0] + tail);
                    assert(pairs[0] == p0);
                    assert(pairs.drop_first() =~= tail);
                    assert(model_insert_all(entries0, false, pairs) == model_insert_all(
                        model_insert(entries0, false, p0.0, p0.1),
                        false,
                        tail,
                    ));
                }
            }
            result
        },
        None => None,
    }
}

/// Parses an array's elements, as `sp_elems` describes.
fn parse_elems_at(s: &Vec<char>, i: usize, Ghost(fuel): Ghost<nat>) -> (r: Option<
    (Vec<Value>, usize),
>)
    requires
        i <= s@.len(),
        fuel >= 3 * (s@.len() - i) + 3,
    ensures
        match r {
            Some(p) => {
                &&& sp_elems(s@, i as int, fuel) is Some
                &&& crate::value::array_model(p.0@) == sp_elems(s@, i as int, fuel).unwrap().0
                &&& p.1 as int == sp_elems(s@, i as int, fuel).unwrap().1
                &&& i < p.1 <= s@.len()
            },
            None => sp_elems(s@, i as int, fuel) is None,
        },
    decreases s@.len() - i, 2int,
{
    broadcast use crate::value::lemma_array_model_len, crate::value::lemma_array_model_index;

    let j = ws_skip(s, i);
    if j < s.len() && s[j] == ']' {
        let values: Vec<Value> = Vec::new();
        proof {
            assert(crate::value::array_model(values@) =~= Seq::<ValueModel>::empty());
        }
        return Some((values, j + 1));
    }
    match parse_value_at(s, i, Ghost((fuel - 1) as nat)) {
        Some((v, end)) => {
            let mut values: Vec<Value> = Vec::new();
            values.push(v);
            parse_elems_more(s, end, values, Ghost((fuel - 1) as nat))
        },
        None => None,
    }
}

/// Parses the elements after a value, appending each.
fn parse_elems_more(s: &Vec<char>, i: usize, values: Vec<Value>, Ghost(fuel): Ghost<nat>) -> (r:
    Option<(Vec<Value>, usize)>)
    requires
        i <= s@.len(),
        fuel >= 3 * (s@.len() - i) + 3,
    ensures
        match r {
            Some(p) => {
                &&& sp_elems_rest(s@, i as int, fuel) is Some
                &&& crate::value::array_model(p.0@) == crate::value::array_model(values@)
                    + sp_elems_rest(s@, i as int, fuel).unwrap().0
                &&& p.1 as int == sp_elems_rest(s@, i as int, fuel).unwrap().1
                &&& i < p.1 <= s@.len()
            },
            None => sp_elems_rest(s@, i as int, fuel) is None,
        },
    decreases s@.len() - i, 2int,
{
    broadcast use crate::value::lemma_array_model_len, crate::value::lemma_array_model_index;

    let j = ws_skip(s, i);
    if j >= s.len() {
        return None;
    }
    if s[j] == ']' {
        proof {
            assert(crate::value::array_model(values@) + Seq::<ValueModel>::empty()
                =~= crate::value::array_model(values@));
        }
        return Some((values, j + 1));
    }
    if s[j] != ',' {
        return None;
    }
    match parse_value_at(s, j + 1, Ghost((fuel - 1) as nat)) {
        Some((v, end)) => {
            let mut values2 = values;
            let ghost before = crate::value::array_model(values2@);
            values2.push(v);
            proof {
                assert(crate::value::array_model(values2@) =~= before + seq![v@]);
            }
            let result = parse_elems_more(s, end, values2, Ghost((fuel - 1) as nat));
            proof {
                if sp_elems_rest(s@, i as int, fuel) is Some {
                    let items = sp_elems_rest(s@, i as int, fuel).unwrap().0;
                    let v0 = sp_value(s@, j + 1int, (fuel - 1) as nat).unwrap().0;
                    let tail = sp_elems_rest(
                        s@,
                        sp_value(s@, j + 1int, (fuel - 1) as nat).unwrap().1,
                        (fuel - 1) as nat,
                    ).unwrap().0;
                    assert(items == seq![v0] + tail);
                    assert((before + seq![v0]) + tail =~= before + (seq![v0] + tail));
                }
            }
            result
        },
        None => None,
    }
}

impl Value {
    /// Reads a value from JSON text: the parsed value; `NonParseble` when the
    /// text is only whitespace; a message error when the grammar rejects it.
    pub fn payload_to_value(text: &str) -> (r: Result<Value, Error>)
        ensures
            parse_blank(text@) ==> r == Err::<Value, Error>(Error::NonParseble),
            !parse_blank(text@) ==> match parse_outcome(text@) {
                Some(m) => r is Ok && r.unwrap()@ == m,
                None => r is Err && r.unwrap_err() is NonParsebleMsg,
            },
    {
        let s = str_to_chars(text);
        let blank_end = ws_skip(&s, 0);
        if blank_end == s.len() {
            return Err(Error::NonParseble);
        }
        match parse_value_at(&s, 0, Ghost(fuel_for(s@, 0))) {
            Some((v, end)) => {
                let rest = ws_skip(&s, end);
                if rest == s.len() {
                    Ok(v)
                } else {
                    Err(Error::NonParsebleMsg(trailing_message()))
                }
            },
            None => Err(Error::NonParsebleMsg(grammar_message())),
        }
    }

    /// Reads a value from JSON text; the same reading as `payload_to_value`.
    pub fn str_to_value(text: &str) -> (r: Result<Value, Error>)
        ensures
            parse_blank(text@) ==> r == Err::<Value, Error>(Error::NonParseble),
            !parse_blank(text@) ==> match parse_outcome(text@) {
                Some(m) => r is Ok && r.unwrap()@ == m,
                None => r is Err && r.unwrap_err() is NonParsebleMsg,
            },
    {
        Value::payload_to_value(text)
    }
}

/// The message for text left over after the value.
fn trailing_message() -> String {
    let r = String::from_str("text after the value");
    r
}

/// The message for text the grammar rejects.
fn grammar_message() -> String {
    let r = String::from_str("no value could be read");
    r
}

} // verus!
