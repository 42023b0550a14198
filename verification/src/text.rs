//! Character-level text helpers: decimal rendering and reading of integers,
//! conversions between `String` and character vectors, and the lexicographic
//! order on character sequences.
use vstd::prelude::*;

verus! {

// ---------------------------------------------------------------------------
// Decimal digits, in specification and in executable form.
// ---------------------------------------------------------------------------

/// A decimal digit character.
pub open spec fn is_dec_digit(c: char) -> bool {
    48 <= c as u32 && c as u32 <= 57
}

/// The numeric value of a decimal digit character.
pub open spec fn digit_val(c: char) -> nat {
    (c as u32 - 48) as nat
}

/// The character for a single decimal digit.
pub open spec fn dec_digit_char(d: nat) -> char {
    if d == 0 {
        '0'
    } else if d == 1 {
        '1'
    } else if d == 2 {
        '2'
    } else if d == 3 {
        '3'
    } else if d == 4 {
        '4'
    } else if d == 5 {
        '5'
    } else if d == 6 {
        '6'
    } else if d == 7 {
        '7'
    } else if d == 8 {
        '8'
    } else {
        '9'
    }
}

/// The decimal rendering of a natural number, most significant digit first.
pub open spec fn dec_nat(n: nat) -> Seq<char>
    decreases n,
{
    if n < 10 {
        seq![dec_digit_char(n)]
    } else {
        dec_nat(n / 10).push(dec_digit_char(n % 10))
    }
}

/// The decimal rendering of an integer: a minus sign for negative values.
pub open spec fn dec_int(v: int) -> Seq<char> {
    if v < 0 {
        seq!['-'] + dec_nat((-v) as nat)
    } else {
        dec_nat(v as nat)
    }
}

/// Every character of the sequence is a decimal digit.
pub open spec fn all_digits(s: Seq<char>) -> bool {
    forall|i: int| 0 <= i < s.len() ==> is_dec_digit(#[trigger] s[i])
}

/// The value of a sequence of decimal digit characters.
pub open spec fn digits_val(s: Seq<char>) -> nat
    decreases s.len(),
{
    if s.len() == 0 {
        0
    } else {
        digits_val(s.drop_last()) * 10 + digit_val(s.last())
    }
}

/// The shape accepted when an integer is read from text: an optional sign
/// followed by at least one decimal digit, and nothing else.
pub open spec fn int_text_ok(s: Seq<char>) -> bool {
    if s.len() == 0 {
        false
    } else if s[0] == '+' || s[0] == '-' {
        s.len() > 1 && all_digits(s.drop_first())
    } else {
        all_digits(s)
    }
}

/// The integer value of a well-shaped integer text.
pub open spec fn int_text_val(s: Seq<char>) -> int {
    if s[0] == '-' {
        -(digits_val(s.drop_first()) as int)
    } else if s[0] == '+' {
        digits_val(s.drop_first()) as int
    } else {
        digits_val(s) as int
    }
}

/// The text is a well-shaped integer whose value lies in [min, max].
pub open spec fn int_text_in_range(s: Seq<char>, min: int, max: int) -> bool {
    int_text_ok(s) && min <= int_text_val(s) <= max
}

/// The executable form of `dec_digit_char`.
pub fn digit_char_of(d: u8) -> (c: char)
    requires
        d < 10,
    ensures
        c == dec_digit_char(d as nat),
{
    match d {
        0 => '0',
        1 => '1',
        2 => '2',
        3 => '3',
        4 => '4',
        5 => '5',
        6 => '6',
        7 => '7',
        8 => '8',
        _ => '9',
    }
}

/// Renders a natural number in decimal, as `dec_nat` describes.
pub fn fmt_u128(n: u128) -> (r: Vec<char>)
    ensures
        r@ == dec_nat(n as nat),
    decreases n,
{
    if n < 10 {
        let mut v: Vec<char> = Vec::new();
        v.push(digit_char_of(n as u8));
        assert(v@ =~= seq![dec_digit_char(n as nat)]);
        v
    } else {
        let mut v = fmt_u128(n / 10);
        v.push(digit_char_of((n % 10) as u8));
        assert(v@ =~= dec_nat((n / 10) as nat).push(dec_digit_char((n % 10) as nat)));
        v
    }
}

/// Renders a signed integer in decimal, as `dec_int` describes.
pub fn fmt_i128(v: i128) -> (r: Vec<char>)
    ensures
        r@ == dec_int(v as int),
{
    if v >= 0 {
        fmt_u128(v as u128)
    } else {
        let mag: u128 = ((-(v + 1)) as u128) + 1;
        assert(mag as int == -(v as int));
        let digits = fmt_u128(mag);
        let mut r: Vec<char> = Vec::new();
        r.push('-');
        let mut i: usize = 0;
        while i < digits.len()
            invariant
                0 <= i <= digits@.len(),
                digits@ == dec_nat(mag as nat),
                r@ == seq!['-'] + digits@.subrange(0, i as int),
            decreases digits@.len() - i,
        {
            r.push(digits[i]);
            i = i + 1;
        }
        assert(r@ =~= seq!['-'] + dec_nat((-(v as int)) as nat));
        r
    }
}

/// Reads the value of a run of digit characters; `None` when it does not fit
/// in a `u128`.
pub fn read_digits_u128(s: &Vec<char>, from: usize, to: usize) -> (r: Option<u128>)
    requires
        from <= to <= s@.len(),
        all_digits(s@.subrange(from as int, to as int)),
    ensures
        match r {
            Some(n) => n as nat == digits_val(s@.subrange(from as int, to as int)),
            None => digits_val(s@.subrange(from as int, to as int)) > u128::MAX,
        },
{
    let mut acc: u128 = 0;
    let mut i: usize = from;
    while i < to
        invariant
            from <= i <= to <= s@.len(),
            all_digits(s@.subrange(from as int, to as int)),
            acc as nat == digits_val(s@.subrange(from as int, i as int)),
        decreases to - i,
    {
        let c = s[i];
        assert(s@.subrange(from as int, to as int)[i - from] == c);
        assert(is_dec_digit(c));
        let d: u32 = (c as u32) - 48;
        let step = match acc.checked_mul(10) {
            Some(t) => t.checked_add(d as u128),
            None => None,
        };
        assert(s@.subrange(from as int, i + 1int).drop_last() =~= s@.subrange(
            from as int,
            i as int,
        ));
        match step {
            Some(next) => {
                acc = next;
            },
            None => {
                proof {
                    let part = s@.subrange(from as int, i + 1int);
                    assert(part.last() == c);
                    assert(digit_val(c) == d as nat);
                    assert(digits_val(part) == (acc as nat) * 10 + d as nat);
                    assert(digits_val(part) > u128::MAX);
                    lemma_digits_val_grows(s@.subrange(from as int, to as int), i + 1 - from);
                    assert(s@.subrange(from as int, to as int).subrange(0, i + 1 - from) =~= part);
                }
                return None;
            },
        }
        i = i + 1;
    }
    assert(s@.subrange(from as int, to as int) =~= s@.subrange(from as int, i as int));
    Some(acc)
}

/// A prefix of a digit run never has a larger value than the whole run.
pub proof fn lemma_digits_val_grows(s: Seq<char>, k: int)
    requires
        0 <= k <= s.len(),
    ensures
        digits_val(s.subrange(0, k)) <= digits_val(s),
    decreases s.len() - k,
{
    if k == s.len() {
        assert(s.subrange(0, k) =~= s);
    } else {
        lemma_digits_val_grows(s, k + 1);
        let p = s.subrange(0, k + 1);
        assert(p.drop_last() =~= s.subrange(0, k));
        assert(digits_val(s.subrange(0, k)) * 10 + digit_val(p.last()) == digits_val(p));
        assert(digits_val(s.subrange(0, k)) <= digits_val(p));
    }
}

// ---------------------------------------------------------------------------
// Facts about decimal rendering: shape and the reading/rendering round trip.
// ---------------------------------------------------------------------------

/// The decimal rendering of a natural number is all digits and reads back to
/// the same value.
pub proof fn lemma_dec_nat_reads_back(n: nat)
    ensures
        dec_nat(n).len() >= 1,
        all_digits(dec_nat(n)),
        digits_val(dec_nat(n)) == n,
        dec_nat(n)[0] != '-',
        dec_nat(n)[0] != '+',
    decreases n,
{
    if n < 10 {
        assert(dec_nat(n) =~= seq![dec_digit_char(n)]);
        assert(digits_val(dec_nat(n)) == digits_val(dec_nat(n).drop_last()) * 10 + digit_val(
            dec_nat(n).last(),
        ));
        assert(dec_nat(n).drop_last() =~= Seq::<char>::empty());
        assert(digit_val(dec_digit_char(n)) == n);
    } else {
        lemma_dec_nat_reads_back(n / 10);
        let w = dec_nat(n);
        assert(w == dec_nat(n / 10).push(dec_digit_char(n % 10)));
        assert(w.drop_last() =~= dec_nat(n / 10));
        assert(w.last() == dec_digit_char(n % 10));
        assert(digit_val(dec_digit_char(n % 10)) == n % 10);
        assert(digits_val(w) == (n / 10) * 10 + n % 10);
        assert((n / 10) * 10 + n % 10 == n) by (nonlinear_arith);
        assert forall|i: int| 0 <= i < w.len() implies is_dec_digit(#[trigger] w[i]) by {
            if i < w.len() - 1 {
                assert(w[i] == dec_nat(n / 10)[i]);
            }
        }
    }
}

/// The decimal rendering of an integer is a well-shaped integer text that
/// reads back to the same value.
pub proof fn lemma_dec_int_reads_back(v: int)
    ensures
        int_text_ok(dec_int(v)),
        int_text_val(dec_int(v)) == v,
{
    if v < 0 {
        lemma_dec_nat_reads_back((-v) as nat);
        let s = dec_int(v);
        assert(s[0] == '-');
        assert(s.drop_first() =~= dec_nat((-v) as nat));
    } else {
        lemma_dec_nat_reads_back(v as nat);
        let s = dec_int(v);
        assert(s =~= dec_nat(v as nat));
    }
}

// ---------------------------------------------------------------------------
// Strings and character vectors.
// ---------------------------------------------------------------------------

/// Relies on std's `String::push`: appends exactly the given character.
#[verifier::external_body]
pub fn push_char(s: &mut String, c: char)
    ensures
        final(s)@ == old(s)@.push(c),
{
    s.push(c);
}

/// Copies a character vector into a `String` with the same characters.
pub fn chars_to_string(v: &Vec<char>) -> (r: String)
    ensures
        r@ == v@,
{
    let mut r = String::new();
    let mut i: usize = 0;
    while i < v.len()
        invariant
            0 <= i <= v@.len(),
            r@ == v@.subrange(0, i as int),
        decreases v@.len() - i,
    {
        push_char(&mut r, v[i]);
        i = i + 1;
    }
    assert(r@ =~= v@);
    r
}

/// Copies the characters of a string slice into a vector.
pub fn str_to_chars(s: &str) -> (r: Vec<char>)
    ensures
        r@ == s@,
{
    let n = s.unicode_len();
    let mut r: Vec<char> = Vec::new();
    let mut i: usize = 0;
    while i < n
        invariant
            0 <= i <= n,
            n == s@.len(),
            r@ == s@.subrange(0, i as int),
        decreases n - i,
    {
        r.push(s.get_char(i));
        assert(r@ =~= s@.subrange(0, i + 1int));
        i = i + 1;
    }
    assert(r@ =~= s@);
    r
}

// ---------------------------------------------------------------------------
// Lexicographic order on character sequences.
// ---------------------------------------------------------------------------

/// Strict lexicographic order on character sequences, by code point; the
/// order std gives `String` comparison.
pub open spec fn lex_lt(a: Seq<char>, b: Seq<char>) -> bool
    decreases a.len(),
{
    if b.len() == 0 {
        false
    } else if a.len() == 0 {
        true
    } else if (a[0] as u32) < (b[0] as u32) {
        true
    } else if (a[0] as u32) > (b[0] as u32) {
        false
    } else {
        lex_lt(a.drop_first(), b.drop_first())
    }
}

/// Decides `lex_lt` on character vectors.
pub fn chars_lt(a: &Vec<char>, b: &Vec<char>) -> (r: bool)
    ensures
        r == lex_lt(a@, b@),
{
    let mut i: usize = 0;
    assert(a@.skip(0) =~= a@);
    assert(b@.skip(0) =~= b@);
    loop
        invariant
            0 <= i <= a@.len(),
            i <= b@.len(),
            lex_lt(a@, b@) == lex_lt(a@.skip(i as int), b@.skip(i as int)),
        decreases a@.len() - i,
    {
        if i >= b.len() {
            assert(b@.skip(i as int).len() == 0);
            return false;
        }
        if i >= a.len() {
            assert(a@.skip(i as int).len() == 0 && b@.skip(i as int).len() > 0);
            return true;
        }
        let ca = a[i];
        let cb = b[i];
        assert(a@.skip(i as int)[0] == a@[i as int]);
        assert(b@.skip(i as int)[0] == b@[i as int]);
        if (ca as u32) < (cb as u32) {
            return true;
        }
        if (ca as u32) > (cb as u32) {
            return false;
        }
        assert(a@.skip(i as int).drop_first() =~= a@.skip(i + 1int));
        assert(b@.skip(i as int).drop_first() =~= b@.skip(i + 1int));
        i = i + 1;
    }
}

/// `lex_lt` is a strict total order: exactly one of `a < b`, `a == b`,
/// `b < a` holds.
pub proof fn lemma_lex_lt_trichotomy(a: Seq<char>, b: Seq<char>)
    ensures
        lex_lt(a, b) ==> !lex_lt(b, a) && a != b,
        !lex_lt(a, b) && !lex_lt(b, a) ==> a == b,
    decreases a.len(),
{
    if b.len() == 0 || a.len() == 0 {
        if a.len() == 0 && b.len() == 0 {
            assert(a =~= b);
        }
    } else {
        lemma_lex_lt_trichotomy(a.drop_first(), b.drop_first());
        if !lex_lt(a, b) && !lex_lt(b, a) {
            assert(a[0] as u32 == b[0] as u32);
            vstd::utf8::char_u32_cast(a[0], a[0] as u32);
            vstd::utf8::char_u32_cast(b[0], b[0] as u32);
            assert(a[0] == b[0]);
            assert(a.drop_first() == b.drop_first());
            assert(a =~= seq![a[0]] + a.drop_first());
            assert(b =~= seq![b[0]] + b.drop_first());
        }
        if lex_lt(a, b) && a == b {
            assert(lex_lt(a.drop_first(), b.drop_first()) ==> a.drop_first() != b.drop_first());
        }
    }
}

/// `lex_lt` is transitive.
pub proof fn lemma_lex_lt_trans(a: Seq<char>, b: Seq<char>, c: Seq<char>)
    requires
        lex_lt(a, b),
        lex_lt(b, c),
    ensures
        lex_lt(a, c),
    decreases a.len(),
{
    if c.len() == 0 {
        assert(!lex_lt(b, c));
    } else if a.len() == 0 {
    } else {
        assert(b.len() > 0);
        if (a[0] as u32) < (b[0] as u32) {
            if (b[0] as u32) <= (c[0] as u32) {
            } else {
                assert(!lex_lt(b, c));
            }
        } else {
            assert(a[0] as u32 == b[0] as u32);
            if (b[0] as u32) < (c[0] as u32) {
            } else if (b[0] as u32) > (c[0] as u32) {
                assert(!lex_lt(b, c));
            } else {
                lemma_lex_lt_trans(a.drop_first(), b.drop_first(), c.drop_first());
            }
        }
    }
}

} // verus!
