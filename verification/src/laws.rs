//! The library-wide laws: statements that span several functions, proved once
//! and for all inputs.
use crate::number::Number;
use crate::parser::{digits_end, fuel_for, is_ws, parse_blank, parse_outcome, sp_number_end,
    sp_string_body, sp_value, sp_ws, token_at};
use crate::text::{dec_int, dec_nat, is_dec_digit, lemma_dec_int_reads_back,
    lemma_dec_nat_reads_back};
use crate::to::json::{escape, escape_at, inline_chars, render};
use crate::object::model_insert_all;
use crate::value::{keys_unique, model_insert, model_lookup, ValueModel};
use crate::value_key::KeyModel;
use vstd::prelude::*;

verus! {

/// Stripping the indentation characters is idempotent: text that has been
/// stripped once strips to itself.
pub proof fn lemma_inline_idempotent(s: Seq<char>)
    ensures
        inline_chars(inline_chars(s)) == inline_chars(s),
    decreases s.len(),
{
    if s.len() > 0 {
        lemma_inline_idempotent(s.drop_last());
        if !(s.last() == '\n' || s.last() == '\t') {
            let prev = inline_chars(s.drop_last());
            assert(inline_chars(s) == prev.push(s.last()));
            assert(inline_chars(s).drop_last() =~= prev);
        }
    }
}

/// The inline JSON text of a value is a fixed point of stripping: writing
/// inline and stripping again changes nothing.
pub proof fn lemma_inline_render_fixed_point(m: ValueModel)
    ensures
        inline_chars(inline_chars(render(m, 0))) == inline_chars(render(m, 0)),
{
    lemma_inline_idempotent(render(m, 0));
}

/// After emptying a number and setting one slot, exactly one slot is
/// populated and the type tag names it.
pub proof fn lemma_clean_set_single_slot(
    a: u8,
    b: u16,
    c: u32,
    d: u64,
    e: u128,
    f: i8,
    g: i16,
    h: i32,
    j: i64,
    k: i128,
)
    ensures
        (Number { u8_val: Some(a), ..Number::empty_spec() }).slot_count() == 1,
        (Number { u8_val: Some(a), ..Number::empty_spec() }).number_type_spec()
            == crate::number::NumberType::U8,
        (Number { u16_val: Some(b), ..Number::empty_spec() }).slot_count() == 1,
        (Number { u16_val: Some(b), ..Number::empty_spec() }).number_type_spec()
            == crate::number::NumberType::U16,
        (Number { u32_val: Some(c), ..Number::empty_spec() }).slot_count() == 1,
        (Number { u32_val: Some(c), ..Number::empty_spec() }).number_type_spec()
            == crate::number::NumberType::U32,
        (Number { u64_val: Some(d), ..Number::empty_spec() }).slot_count() == 1,
        (Number { u64_val: Some(d), ..Number::empty_spec() }).number_type_spec()
            == crate::number::NumberType::U64,
        (Number { u128_val: Some(e), ..Number::empty_spec() }).slot_count() == 1,
        (Number { u128_val: Some(e), ..Number::empty_spec() }).number_type_spec()
            == crate::number::NumberType::U128,
        (Number { i8_val: Some(f), ..Number::empty_spec() }).slot_count() == 1,
        (Number { i8_val: Some(f), ..Number::empty_spec() }).number_type_spec()
            == crate::number::NumberType::I8,
        (Number { i16_val: Some(g), ..Number::empty_spec() }).slot_count() == 1,
        (Number { i16_val: Some(g), ..Number::empty_spec() }).number_type_spec()
            == crate::number::NumberType::I16,
        (Number { i32_val: Some(h), ..Number::empty_spec() }).slot_count() == 1,
        (Number { i32_val: Some(h), ..Number::empty_spec() }).number_type_spec()
            == crate::number::NumberType::I32,
        (Number { i64_val: Some(j), ..Number::empty_spec() }).slot_count() == 1,
        (Number { i64_val: Some(j), ..Number::empty_spec() }).number_type_spec()
            == crate::number::NumberType::I64,
        (Number { i128_val: Some(k), ..Number::empty_spec() }).slot_count() == 1,
        (Number { i128_val: Some(k), ..Number::empty_spec() }).number_type_spec()
            == crate::number::NumberType::I128,
{
}

/// With unique keys, the lookup finds a value exactly when the entry stands
/// in the sequence.
pub proof fn lemma_lookup_contains(
    entries: Seq<(KeyModel, ValueModel)>,
    k: KeyModel,
    v: ValueModel,
)
    requires
        keys_unique(entries),
    ensures
        model_lookup(entries, k) == Some(v) <==> entries.contains((k, v)),
    decreases entries.len(),
{
    if entries.len() > 0 {
        let rest = entries.drop_first();
        assert(keys_unique(rest)) by {
            assert(forall|m: int| 0 <= m < rest.len() ==> rest[m] == #[trigger] entries[m + 1]);
        }
        lemma_lookup_contains(rest, k, v);
        if entries[0].0 == k {
            if entries[0].1 == v {
                assert(entries.contains((k, v)));
            } else {
                if entries.contains((k, v)) {
                    let idx = choose|idx: int|
                        0 <= idx < entries.len() && entries[idx] == (k, v);
                    assert(idx > 0);
                    assert(entries[0].0 == entries[idx].0);
                    assert(false);
                }
            }
        } else {
            if rest.contains((k, v)) {
                let idx = choose|idx: int| 0 <= idx < rest.len() && rest[idx] == (k, v);
                assert(entries[idx + 1] == (k, v));
                assert(entries.contains((k, v)));
            }
            if entries.contains((k, v)) {
                let idx = choose|idx: int| 0 <= idx < entries.len() && entries[idx] == (k, v);
                assert(idx > 0);
                assert(rest[idx - 1] == (k, v));
                assert(rest.contains((k, v)));
            }
        }
    }
}

/// Backing transparency: two objects holding the same entries — in any
/// orders, as the sorted and the hash backing keep them — have the same
/// length and answer every lookup alike; only the order of their entries can
/// differ.
pub proof fn lemma_object_backing_transparent(
    a: Seq<(KeyModel, ValueModel)>,
    b: Seq<(KeyModel, ValueModel)>,
)
    requires
        keys_unique(a),
        keys_unique(b),
        a.to_multiset() == b.to_multiset(),
    ensures
        a.len() == b.len(),
        forall|k: KeyModel| #[trigger] model_lookup(a, k) == model_lookup(b, k),
{
    broadcast use vstd::seq_lib::group_to_multiset_ensures;

    assert(a.len() == a.to_multiset().len());
    assert(b.len() == b.to_multiset().len());
    assert forall|k: KeyModel| #[trigger] model_lookup(a, k) == model_lookup(b, k) by {
        match model_lookup(a, k) {
            Some(v) => {
                lemma_lookup_contains(a, k, v);
                assert(a.contains((k, v)));
                assert(a.to_multiset().count((k, v)) > 0);
                assert(b.to_multiset().count((k, v)) > 0);
                assert(b.contains((k, v)));
                lemma_lookup_contains(b, k, v);
            },
            None => {
                match model_lookup(b, k) {
                    Some(v) => {
                        lemma_lookup_contains(b, k, v);
                        assert(b.contains((k, v)));
                        assert(b.to_multiset().count((k, v)) > 0);
                        assert(a.to_multiset().count((k, v)) > 0);
                        assert(a.contains((k, v)));
                        lemma_lookup_contains(a, k, v);
                    },
                    None => {},
                }
            },
        }
    }
}

// ---------------------------------------------------------------------------
// Reading back what the writer wrote: the scalar cases.
// ---------------------------------------------------------------------------

/// A scalar the JSON writer and reader exchange without loss: a boolean,
/// null, a text free of quotes and backslashes, or a number with exactly its
/// `i32` slot populated.
pub open spec fn scalar_round_trips(m: ValueModel) -> bool {
    match m {
        ValueModel::Flag(_) => true,
        ValueModel::Nothing => true,
        ValueModel::Text(s) => forall|i: int|
            0 <= i < s.len() ==> #[trigger] s[i] != '"' && s[i] != '\\',
        ValueModel::Num(n) => n == (Number {
            i32_val: Some(n.i32_val.unwrap()),
            ..Number::empty_spec()
        }) && n.i32_val is Some,
        _ => false,
    }
}

/// Skipping whitespace does not move off a non-whitespace character.
proof fn lemma_ws_stays(s: Seq<char>, i: int)
    requires
        0 <= i < s.len(),
        !is_ws(s[i]),
    ensures
        sp_ws(s, i) == i,
{
}

/// A quote-free, backslash-free text escapes to itself.
proof fn lemma_escape_plain(s: Seq<char>, i: int)
    requires
        0 <= i <= s.len(),
        forall|m: int| 0 <= m < s.len() ==> #[trigger] s[m] != '"' && s[m] != '\\',
    ensures
        escape_at(s, i) == s.skip(i),
    decreases s.len() - i,
{
    if i >= s.len() {
        assert(s.skip(i) =~= Seq::<char>::empty());
    } else {
        lemma_escape_plain(s, i + 1);
        assert(seq![s[i]] + s.skip(i + 1) =~= s.skip(i));
    }
}

/// The reader takes a quote-free, backslash-free text back out of its quoted
/// form, wherever it stands.
proof fn lemma_string_body_reads_back(s: Seq<char>, i: int, content: Seq<char>)
    requires
        0 <= i,
        i + content.len() < s.len(),
        forall|m: int|
            0 <= m < content.len() ==> #[trigger] content[m] != '"' && content[m] != '\\',
        forall|m: int| 0 <= m < content.len() ==> s[i + m] == #[trigger] content[m],
        s[i + content.len()] == '"',
    ensures
        sp_string_body(s, i) == Some((content, i + content.len() + 1)),
    decreases content.len(),
{
    if content.len() == 0 {
        assert(s[i] == '"');
    } else {
        assert(s[i] == content[0]);
        assert(s[i] != '"' && s[i] != '\\');
        let rest = content.drop_first();
        assert(forall|m: int| 0 <= m < rest.len() ==> s[i + 1 + m] == #[trigger] rest[m]);
        lemma_string_body_reads_back(s, i + 1, rest);
        assert(seq![s[i]] + rest =~= content);
    }
}

/// A run of digits ends exactly at its end when what follows is no digit.
proof fn lemma_digits_end_of_run(s: Seq<char>, i: int, j: int)
    requires
        0 <= i <= j <= s.len(),
        forall|m: int| i <= m < j ==> is_dec_digit(#[trigger] s[m]),
        j < s.len() ==> !is_dec_digit(s[j]),
    ensures
        digits_end(s, i) == j,
    decreases j - i,
{
    if i < j {
        lemma_digits_end_of_run(s, i + 1, j);
    }
}

/// The decimal text of a positive value never starts with a zero digit.
proof fn lemma_dec_nat_leading(n: nat)
    ensures
        n >= 1 ==> dec_nat(n)[0] != '0',
        n == 0 ==> dec_nat(n) =~= seq!['0'],
    decreases n,
{
    if n >= 10 {
        lemma_dec_nat_leading(n / 10);
        assert(dec_nat(n)[0] == dec_nat(n / 10)[0]);
    }
}

/// The writer's text of an `i32` is one whole number token.
proof fn lemma_number_token_whole(s: Seq<char>, v: int)
    requires
        i32::MIN <= v <= i32::MAX,
        s == dec_int(v),
    ensures
        sp_number_end(s, 0) == Some(s.len() as int),
{
    lemma_dec_int_reads_back(v);
    lemma_dec_nat_reads_back(if v < 0 {
        (-v) as nat
    } else {
        v as nat
    });
    lemma_dec_nat_leading(if v < 0 {
        (-v) as nat
    } else {
        v as nat
    });
    if v < 0 {
        let digits = dec_nat((-v) as nat);
        assert(s[0] == '-');
        assert(forall|m: int| 1 <= m < s.len() ==> s[m] == #[trigger] digits[m - 1]);
        assert(forall|m: int| 1 <= m < s.len() ==> is_dec_digit(#[trigger] s[m]));
        assert(is_dec_digit(s[1]));
        if v == 0 {
        } else {
            if s[1] == '0' {
                assert(digits[0] == '0');
                assert(false);
            }
            lemma_digits_end_of_run(s, 1, s.len() as int);
        }
    } else {
        assert(s =~= dec_nat(v as nat));
        assert(forall|m: int| 0 <= m < s.len() ==> is_dec_digit(#[trigger] s[m]));
        assert(s[0] != '-');
        if v == 0 {
            assert(s =~= seq!['0']);
            assert(s[0] == '0');
        } else {
            assert(s[0] != '0');
            lemma_digits_end_of_run(s, 0, s.len() as int);
        }
    }
}

/// Reading back the writer's text of a scalar yields the value it wrote:
/// the round trip, shown for every boolean, null, quote-free text and
/// `i32`-slot number. Containers are exercised by tests instead.
pub proof fn lemma_scalar_round_trip(m: ValueModel)
    requires
        scalar_round_trips(m),
    ensures
        !parse_blank(render(m, 0)),
        parse_outcome(render(m, 0)) == Some(m),
{
    let s = render(m, 0);
    let fuel = fuel_for(s, 0);
    assert(fuel >= 1);
    match m {
        ValueModel::Flag(b) => {
            if b {
                assert(s =~= seq!['t', 'r', 'u', 'e']);
                lemma_ws_stays(s, 0);
                assert(token_at(s, 0, seq!['t', 'r', 'u', 'e'])) by {
                    assert(s.subrange(0, 4) =~= s);
                }
                assert(sp_value(s, 0, fuel) == Some((m, 4int)));
                assert(sp_ws(s, 4) == 4);
            } else {
                assert(s =~= seq!['f', 'a', 'l', 's', 'e']);
                lemma_ws_stays(s, 0);
                assert(!token_at(s, 0, seq!['t', 'r', 'u', 'e'])) by {
                    if token_at(s, 0, seq!['t', 'r', 'u', 'e']) {
                        assert(s.subrange(0, 4)[0] == 't');
                    }
                }
                assert(token_at(s, 0, seq!['f', 'a', 'l', 's', 'e'])) by {
                    assert(s.subrange(0, 5) =~= s);
                }
                assert(sp_value(s, 0, fuel) == Some((m, 5int)));
                assert(sp_ws(s, 5) == 5);
            }
        },
        ValueModel::Nothing => {
            assert(s =~= seq!['n', 'u', 'l', 'l']);
            lemma_ws_stays(s, 0);
            assert(!token_at(s, 0, seq!['t', 'r', 'u', 'e'])) by {
                if token_at(s, 0, seq!['t', 'r', 'u', 'e']) {
                    assert(s.subrange(0, 4)[0] == 't');
                }
            }
            assert(!token_at(s, 0, seq!['f', 'a', 'l', 's', 'e'])) by {
                if token_at(s, 0, seq!['f', 'a', 'l', 's', 'e']) {
                    assert(s.subrange(0, 5)[0] == 'f');
                }
            }
            assert(token_at(s, 0, seq!['n', 'u', 'l', 'l'])) by {
                assert(s.subrange(0, 4) =~= s);
            }
            assert(sp_value(s, 0, fuel) == Some((m, 4int)));
            assert(sp_ws(s, 4) == 4);
        },
        ValueModel::Text(text) => {
            assert(s =~= seq!['"'] + escape(text) + seq!['"']);
            lemma_escape_plain(text, 0);
            assert(escape(text) == text.skip(0));
            assert(text.skip(0) =~= text);
            assert(s.len() == text.len() + 2);
            assert(s[0] == '"');
            lemma_ws_stays(s, 0);
            assert(forall|mm: int| 0 <= mm < text.len() ==> s[1 + mm] == #[trigger] text[mm]);
            assert(s[1 + text.len() as int] == '"');
            lemma_string_body_reads_back(s, 1, text);
            assert(sp_value(s, 0, fuel) == Some((m, s.len() as int)));
            assert(sp_ws(s, s.len() as int) == s.len());
        },
        ValueModel::Num(n) => {
            let v = n.i32_val.unwrap() as int;
            assert(n.slot_count() == 1);
            assert(n.chars_of() == dec_int(v));
            assert(s == dec_int(v));
            lemma_dec_int_reads_back(v);
            lemma_dec_nat_reads_back(if v < 0 {
                (-v) as nat
            } else {
                v as nat
            });
            assert(s.len() >= 1);
            assert(s[0] == '-' || is_dec_digit(s[0]));
            lemma_ws_stays(s, 0);
            assert(s[0] != '{' && s[0] != '[' && s[0] != '"');
            assert(!token_at(s, 0, seq!['t', 'r', 'u', 'e'])) by {
                if token_at(s, 0, seq!['t', 'r', 'u', 'e']) {
                    assert(s.subrange(0, 4)[0] == 't');
                    assert(s[0] == 't');
                }
            }
            assert(!token_at(s, 0, seq!['f', 'a', 'l', 's', 'e'])) by {
                if token_at(s, 0, seq!['f', 'a', 'l', 's', 'e']) {
                    assert(s.subrange(0, 5)[0] == 'f');
                    assert(s[0] == 'f');
                }
            }
            assert(!token_at(s, 0, seq!['n', 'u', 'l', 'l'])) by {
                if token_at(s, 0, seq!['n', 'u', 'l', 'l']) {
                    assert(s.subrange(0, 4)[0] == 'n');
                    assert(s[0] == 'n');
                }
            }
            lemma_number_token_whole(s, v);
            assert(s.subrange(0, s.len() as int) =~= s);
            assert(crate::text::int_text_in_range(s, i32::MIN as int, i32::MAX as int));
            assert(crate::number::number_from_text_spec(s) == Ok::<Number, crate::Error>(
                Number { i32_val: Some(v as i32), ..Number::empty_spec() },
            ));
            assert(v as i32 == n.i32_val.unwrap());
            assert((Number { i32_val: Some(v as i32), ..Number::empty_spec() }) == n);
            assert(sp_value(s, 0, fuel) == Some((m, s.len() as int)));
            assert(sp_ws(s, s.len() as int) == s.len());
        },
        _ => {},
    }
}

// ---------------------------------------------------------------------------
// What the insertion fold of the map constructors holds.
// ---------------------------------------------------------------------------

/// The value of the last pair with the given key, scanning a pair sequence.
pub open spec fn last_value_of(
    pairs: Seq<(KeyModel, ValueModel)>,
    km: KeyModel,
) -> Option<ValueModel>
    decreases pairs.len(),
{
    if pairs.len() == 0 {
        None
    } else {
        match last_value_of(pairs.drop_first(), km) {
            Some(v) => Some(v),
            None => if pairs[0].0 == km {
                Some(pairs[0].1)
            } else {
                None
            },
        }
    }
}

/// One insertion changes the lookup at its key and nothing else, in either
/// backing.
pub proof fn lemma_insert_lookup(
    entries: Seq<(KeyModel, ValueModel)>,
    sorted: bool,
    k: KeyModel,
    v: ValueModel,
    km: KeyModel,
)
    ensures
        model_lookup(model_insert(entries, sorted, k, v), km) == if km == k {
            Some(v)
        } else {
            model_lookup(entries, km)
        },
{
    if model_lookup(entries, k) is Some {
        crate::value::lemma_entry_index_props(entries, k);
        lemma_lookup_update(entries, crate::value::entry_index(entries, k), k, v, km);
    } else {
        crate::value::lemma_lookup_found_key(entries, k);
        if sorted {
            crate::value::lemma_sorted_pos_bounds(entries, k);
            lemma_lookup_insert_at(entries, crate::value::sorted_pos(entries, k), k, v, km);
        } else {
            assert(entries.push((k, v)) =~= entries.insert(entries.len() as int, (k, v)));
            lemma_lookup_insert_at(entries, entries.len() as int, k, v, km);
        }
    }
}

/// Replacing the first entry of a key changes the lookup at that key alone.
proof fn lemma_lookup_update(
    entries: Seq<(KeyModel, ValueModel)>,
    idx: int,
    k: KeyModel,
    v: ValueModel,
    km: KeyModel,
)
    requires
        0 <= idx < entries.len(),
        entries[idx].0 == k,
        forall|m: int| 0 <= m < idx ==> (#[trigger] entries[m]).0 != k,
    ensures
        model_lookup(entries.update(idx, (k, v)), km) == if km == k {
            Some(v)
        } else {
            model_lookup(entries, km)
        },
    decreases entries.len(),
{
    let updated = entries.update(idx, (k, v));
    if idx == 0 {
        if km != k {
            assert(updated.drop_first() =~= entries.drop_first());
        }
    } else {
        assert(updated[0] == entries[0]);
        if entries[0].0 == km {
        } else {
            assert(updated.drop_first() =~= entries.drop_first().update(idx - 1, (k, v)));
            assert(forall|m: int|
                0 <= m < idx - 1 ==> entries.drop_first()[m] == #[trigger] entries[m + 1]);
            lemma_lookup_update(entries.drop_first(), idx - 1, k, v, km);
        }
    }
}

/// Splicing in an entry with a fresh key changes the lookup at that key
/// alone.
proof fn lemma_lookup_insert_at(
    entries: Seq<(KeyModel, ValueModel)>,
    pos: int,
    k: KeyModel,
    v: ValueModel,
    km: KeyModel,
)
    requires
        0 <= pos <= entries.len(),
        forall|m: int| 0 <= m < entries.len() ==> (#[trigger] entries[m]).0 != k,
    ensures
        model_lookup(entries.insert(pos, (k, v)), km) == if km == k {
            Some(v)
        } else {
            model_lookup(entries, km)
        },
    decreases entries.len(),
{
    let spliced = entries.insert(pos, (k, v));
    if pos == 0 {
        if km != k {
            assert(spliced.drop_first() =~= entries);
        } else {
            assert(spliced[0] == (k, v));
        }
    } else {
        assert(spliced[0] == entries[0]);
        assert(entries[0].0 != k);
        if entries[0].0 == km {
        } else {
            assert(spliced.drop_first() =~= entries.drop_first().insert(pos - 1, (k, v)));
            assert(forall|m: int|
                0 <= m < entries.drop_first().len() ==> entries.drop_first()[m]
                    == #[trigger] entries[m + 1]);
            lemma_lookup_insert_at(entries.drop_first(), pos - 1, k, v, km);
        }
    }
}

/// The insertion fold answers each key with the last pair carrying it, and
/// keys no pair carries as the accumulator did.
pub proof fn lemma_fold_lookup(
    acc: Seq<(KeyModel, ValueModel)>,
    sorted: bool,
    pairs: Seq<(KeyModel, ValueModel)>,
    km: KeyModel,
)
    ensures
        model_lookup(model_insert_all(acc, sorted, pairs), km) == match last_value_of(pairs, km) {
            Some(v) => Some(v),
            None => model_lookup(acc, km),
        },
    decreases pairs.len(),
{
    if pairs.len() > 0 {
        let acc2 = model_insert(acc, sorted, pairs[0].0, pairs[0].1);
        lemma_fold_lookup(acc2, sorted, pairs.drop_first(), km);
        lemma_insert_lookup(acc, sorted, pairs[0].0, pairs[0].1, km);
    }
}

/// An object built by inserting pairs with pairwise distinct keys — as the
/// map constructors do, in whichever order the map yields them — answers
/// each pair's key with that pair's value and every other key with nothing.
/// With `lemma_object_backing_transparent`, two objects built from the same
/// entries answer every lookup alike whatever their backing and order.
pub proof fn lemma_fold_of_distinct_pairs(
    sorted: bool,
    pairs: Seq<(KeyModel, ValueModel)>,
)
    requires
        forall|i: int, j: int|
            0 <= i < j < pairs.len() ==> (#[trigger] pairs[i]).0 != (#[trigger] pairs[j]).0,
    ensures
        forall|i: int|
            0 <= i < pairs.len() ==> model_lookup(
                model_insert_all(Seq::<(KeyModel, ValueModel)>::empty(), sorted, pairs),
                (#[trigger] pairs[i]).0,
            ) == Some(pairs[i].1),
        forall|km: KeyModel|
            (forall|i: int| 0 <= i < pairs.len() ==> (#[trigger] pairs[i]).0 != km)
                ==> #[trigger] model_lookup(
                model_insert_all(Seq::<(KeyModel, ValueModel)>::empty(), sorted, pairs),
                km,
            ) is None,
{
    let empty = Seq::<(KeyModel, ValueModel)>::empty();
    assert forall|i: int| 0 <= i < pairs.len() implies model_lookup(
        model_insert_all(empty, sorted, pairs),
        (#[trigger] pairs[i]).0,
    ) == Some(pairs[i].1) by {
        lemma_fold_lookup(empty, sorted, pairs, pairs[i].0);
        lemma_last_value_distinct(pairs, i);
    }
    assert forall|km: KeyModel|
        (forall|i: int| 0 <= i < pairs.len() ==> (#[trigger] pairs[i]).0 != km) implies #[trigger] model_lookup(
        model_insert_all(empty, sorted, pairs),
        km,
    ) is None by {
        lemma_fold_lookup(empty, sorted, pairs, km);
        lemma_last_value_absent(pairs, km);
    }
}

/// With pairwise distinct keys, the last value of a carried key is its pair's
/// value.
proof fn lemma_last_value_distinct(pairs: Seq<(KeyModel, ValueModel)>, i: int)
    requires
        forall|m: int, n: int|
            0 <= m < n < pairs.len() ==> (#[trigger] pairs[m]).0 != (#[trigger] pairs[n]).0,
        0 <= i < pairs.len(),
    ensures
        last_value_of(pairs, pairs[i].0) == Some(pairs[i].1),
    decreases pairs.len(),
{
    let rest = pairs.drop_first();
    assert(forall|m: int| 0 <= m < rest.len() ==> rest[m] == #[trigger] pairs[m + 1]);
    if i == 0 {
        lemma_last_value_absent(rest, pairs[0].0);
    } else {
        lemma_last_value_distinct(rest, i - 1);
    }
}

/// A key no pair carries has no last value.
proof fn lemma_last_value_absent(pairs: Seq<(KeyModel, ValueModel)>, km: KeyModel)
    requires
        forall|m: int| 0 <= m < pairs.len() ==> (#[trigger] pairs[m]).0 != km,
    ensures
        last_value_of(pairs, km) is None,
    decreases pairs.len(),
{
    if pairs.len() > 0 {
        assert(forall|m: int|
            0 <= m < pairs.drop_first().len() ==> pairs.drop_first()[m] == #[trigger] pairs[m
                + 1]);
        lemma_last_value_absent(pairs.drop_first(), km);
    }
}

} // verus!
