//! `Value`, the tagged union at the centre of the library, and its
//! mathematical model: every value is mirrored by a `ValueModel` built from
//! sequences and plain data, and every contract speaks over that mirror.
use crate::array::Array;
use crate::datetime::DateTime;
use crate::number::Number;
use crate::object::Object;
use crate::stringb::StringB;
use crate::value_key::{KeyModel, ValueKey};
use vstd::prelude::*;

verus! {

/// The mathematical shape of a value.
pub enum ValueModel {
    Text(Seq<char>),
    Num(Number),
    Flag(bool),
    List(Seq<ValueModel>),
    Record(ObjModel),
    Nothing,
    Missing,
    Moment(DateTime),
}

/// The mathematical shape of an object: its backing choice and its entries in
/// iteration order.
pub struct ObjModel {
    pub sorted: bool,
    pub entries: Seq<(KeyModel, ValueModel)>,
}

/// A dynamically tagged value.
#[derive(Debug)]
pub enum Value {
    String(StringB),
    Number(Number),
    Boolean(bool),
    Array(Array),
    Object(Object),
    Null,
    Undefined,
    DateTime(DateTime),
}

/// The model of a value.
pub open spec fn value_model(v: Value) -> ValueModel
    decreases v,
{
    match v {
        Value::String(s) => ValueModel::Text(s@),
        Value::Number(n) => ValueModel::Num(n),
        Value::Boolean(b) => ValueModel::Flag(b),
        Value::Array(a) => ValueModel::List(array_model(a.values@)),
        Value::Object(o) => ValueModel::Record(
            ObjModel { sorted: o.sorted, entries: entries_model(o.entries@) },
        ),
        Value::Null => ValueModel::Nothing,
        Value::Undefined => ValueModel::Missing,
        Value::DateTime(d) => ValueModel::Moment(d),
    }
}

/// The models of a sequence of values, in order.
pub open spec fn array_model(s: Seq<Value>) -> Seq<ValueModel>
    decreases s,
{
    if s.len() == 0 {
        Seq::empty()
    } else {
        array_model(s.drop_last()).push(value_model(s.last()))
    }
}

/// The models of a sequence of entries, in order.
pub open spec fn entries_model(s: Seq<(ValueKey, Value)>) -> Seq<(KeyModel, ValueModel)>
    decreases s,
{
    if s.len() == 0 {
        Seq::empty()
    } else {
        entries_model(s.drop_last()).push((s.last().0@, value_model(s.last().1)))
    }
}

impl View for Value {
    type V = ValueModel;

    open spec fn view(&self) -> ValueModel {
        value_model(*self)
    }
}

/// The model of a sequence of values has one model per value, in place.
pub proof fn lemma_array_model(s: Seq<Value>)
    ensures
        array_model(s).len() == s.len(),
        forall|i: int| 0 <= i < s.len() ==> #[trigger] array_model(s)[i] == value_model(s[i]),
    decreases s.len(),
{
    if s.len() > 0 {
        lemma_array_model(s.drop_last());
        assert(forall|i: int|
            0 <= i < s.len() - 1 ==> s.drop_last()[i] == #[trigger] s[i]);
        assert(forall|i: int|
            0 <= i < s.len() - 1 ==> #[trigger] array_model(s)[i] == array_model(s.drop_last())[i]);
    }
}

/// The model of a sequence of entries has one pair per entry, in place.
pub proof fn lemma_entries_model(s: Seq<(ValueKey, Value)>)
    ensures
        entries_model(s).len() == s.len(),
        forall|i: int|
            0 <= i < s.len() ==> #[trigger] entries_model(s)[i] == (s[i].0@, value_model(
                s[i].1,
            )),
    decreases s.len(),
{
    if s.len() > 0 {
        lemma_entries_model(s.drop_last());
        assert(forall|i: int|
            0 <= i < s.len() - 1 ==> s.drop_last()[i] == #[trigger] s[i]);
        assert(forall|i: int|
            0 <= i < s.len() - 1 ==> #[trigger] entries_model(s)[i] == entries_model(
                s.drop_last(),
            )[i]);
    }
}

/// Broadcast form: the model of a value sequence has the same length.
pub broadcast proof fn lemma_array_model_len(s: Seq<Value>)
    ensures
        (#[trigger] array_model(s)).len() == s.len(),
{
    lemma_array_model(s);
}

/// Broadcast form: the model of a value sequence is pointwise.
pub broadcast proof fn lemma_array_model_index(s: Seq<Value>, i: int)
    requires
        0 <= i < s.len(),
    ensures
        #[trigger] array_model(s)[i] == value_model(s[i]),
{
    lemma_array_model(s);
}

/// Broadcast form: the model of an entry sequence has the same length.
pub broadcast proof fn lemma_entries_model_len(s: Seq<(ValueKey, Value)>)
    ensures
        (#[trigger] entries_model(s)).len() == s.len(),
{
    lemma_entries_model(s);
}

/// Broadcast form: the model of an entry sequence is pointwise.
pub broadcast proof fn lemma_entries_model_index(s: Seq<(ValueKey, Value)>, i: int)
    requires
        0 <= i < s.len(),
    ensures
        #[trigger] entries_model(s)[i] == (s[i].0@, value_model(s[i].1)),
{
    lemma_entries_model(s);
}

// ---------------------------------------------------------------------------
// Lookup in an entry sequence: the association an object's entries denote.
// ---------------------------------------------------------------------------

/// The value at a key: the first entry with that key, front to back.
pub open spec fn model_lookup(entries: Seq<(KeyModel, ValueModel)>, k: KeyModel) -> Option<
    ValueModel,
>
    decreases entries.len(),
{
    if entries.len() == 0 {
        None
    } else if entries[0].0 == k {
        Some(entries[0].1)
    } else {
        model_lookup(entries.drop_first(), k)
    }
}

/// The keys of an entry sequence, in order.
pub open spec fn keys_of(entries: Seq<(KeyModel, ValueModel)>) -> Seq<KeyModel> {
    Seq::new(entries.len(), |i: int| entries[i].0)
}

/// No two entries share a key.
pub open spec fn keys_unique(entries: Seq<(KeyModel, ValueModel)>) -> bool {
    forall|i: int, j: int|
        0 <= i < j < entries.len() ==> (#[trigger] entries[i]).0 != (#[trigger] entries[j]).0
}

/// The keys are strictly ascending in the key order.
pub open spec fn keys_sorted(entries: Seq<(KeyModel, ValueModel)>) -> bool {
    forall|i: int, j: int|
        0 <= i < j < entries.len() ==> crate::value_key::key_lt(
            (#[trigger] entries[i]).0,
            (#[trigger] entries[j]).0,
        )
}

/// A well-formed object model: unique keys, sorted when the backing sorts.
pub open spec fn obj_wf(m: ObjModel) -> bool {
    keys_unique(m.entries) && (m.sorted ==> keys_sorted(m.entries))
}

/// A well-formed value model: every object inside it is well-formed.
pub open spec fn model_wf(m: ValueModel) -> bool
    decreases m,
{
    match m {
        ValueModel::List(items) => forall|i: int|
            0 <= i < items.len() ==> model_wf(#[trigger] items[i]),
        ValueModel::Record(o) => obj_wf(o) && forall|i: int|
            0 <= i < o.entries.len() ==> model_wf((#[trigger] o.entries[i]).1),
        _ => true,
    }
}

/// When the first match for a key stands at position `j`, the lookup returns
/// that entry's value.
pub proof fn lemma_lookup_at(entries: Seq<(KeyModel, ValueModel)>, k: KeyModel, j: int)
    requires
        0 <= j < entries.len(),
        entries[j].0 == k,
        forall|m: int| 0 <= m < j ==> (#[trigger] entries[m]).0 != k,
    ensures
        model_lookup(entries, k) == Some(entries[j].1),
    decreases j,
{
    if j == 0 {
    } else {
        assert(entries[0].0 != k);
        lemma_lookup_at(entries.drop_first(), k, j - 1);
        assert(forall|m: int|
            0 <= m < entries.drop_first().len() ==> entries.drop_first()[m]
                == #[trigger] entries[m + 1]);
    }
}

/// When no entry carries the key, the lookup returns nothing.
pub proof fn lemma_lookup_absent(entries: Seq<(KeyModel, ValueModel)>, k: KeyModel)
    requires
        forall|m: int| 0 <= m < entries.len() ==> (#[trigger] entries[m]).0 != k,
    ensures
        model_lookup(entries, k) is None,
    decreases entries.len(),
{
    if entries.len() > 0 {
        lemma_lookup_absent(entries.drop_first(), k);
    }
}

// ---------------------------------------------------------------------------
// Equality of models: structural, except that an object's entries may stand
// in any order, as a hash-backed object compares by content.
// ---------------------------------------------------------------------------

/// Equality of models. For lists, pointwise; for records, same backing and
/// the same association of keys to values.
pub open spec fn vm_eq(a: ValueModel, b: ValueModel) -> bool
    decreases a,
{
    match (a, b) {
        (ValueModel::Text(x), ValueModel::Text(y)) => x == y,
        (ValueModel::Num(x), ValueModel::Num(y)) => x.same_number(y),
        (ValueModel::Flag(x), ValueModel::Flag(y)) => x == y,
        (ValueModel::Nothing, ValueModel::Nothing) => true,
        (ValueModel::Missing, ValueModel::Missing) => true,
        (ValueModel::Moment(x), ValueModel::Moment(y)) => x == y,
        (ValueModel::List(x), ValueModel::List(y)) => vm_seq_eq(x, y),
        (ValueModel::Record(x), ValueModel::Record(y)) => {
            &&& x.sorted == y.sorted
        &&& vm_entries_eq(x.entries, y.entries)
        },
        _ => false,
    }
}

/// Pointwise equality of model sequences.
pub open spec fn vm_seq_eq(x: Seq<ValueModel>, y: Seq<ValueModel>) -> bool
    decreases x,
{
    x.len() == y.len() && forall|i: int| 0 <= i < x.len() ==> vm_eq(#[trigger] x[i], y[i])
}

/// Entry sequences of the same length where every entry of the first finds
/// its key in the second with an equal value.
pub open spec fn vm_entries_eq(
    x: Seq<(KeyModel, ValueModel)>,
    y: Seq<(KeyModel, ValueModel)>,
) -> bool
    decreases x,
{
    &&& x.len() == y.len()
    &&& forall|i: int|
        0 <= i < x.len() ==> {
            &&& model_lookup(y, (#[trigger] x[i]).0) is Some
            &&& vm_eq(x[i].1, model_lookup(y, x[i].0).unwrap())
        }
}

// ---------------------------------------------------------------------------
// Executable deep equality and deep clone.
// ---------------------------------------------------------------------------

/// Decides `vm_eq` on two values.
pub fn value_eq(a: &Value, b: &Value) -> (r: bool)
    ensures
        r == vm_eq(a@, b@),
    decreases *a,
{
    match (a, b) {
        (Value::String(x), Value::String(y)) => x.value.eq(&y.value),
        (Value::Number(x), Value::Number(y)) => x.eq(y),
        (Value::Boolean(x), Value::Boolean(y)) => x == y,
        (Value::Null, Value::Null) => true,
        (Value::Undefined, Value::Undefined) => true,
        (Value::DateTime(x), Value::DateTime(y)) => x == y,
        (Value::Array(x), Value::Array(y)) => values_eq(&x.values, &y.values),
        (Value::Object(x), Value::Object(y)) => {
            if x.sorted != y.sorted {
                return false;
            }
            entries_eq(&x.entries, &y.entries)
        },
        _ => false,
    }
}

/// Decides `vm_seq_eq` on two value vectors.
pub fn values_eq(x: &Vec<Value>, y: &Vec<Value>) -> (r: bool)
    ensures
        r == vm_seq_eq(array_model(x@), array_model(y@)),
    decreases *x,
{
    proof {
        lemma_array_model(x@);
        lemma_array_model(y@);
    }
    if x.len() != y.len() {
        return false;
    }
    let mut i: usize = 0;
    while i < x.len()
        invariant
            0 <= i <= x@.len(),
            x@.len() == y@.len(),
            forall|m: int|
                0 <= m < i ==> vm_eq(#[trigger] array_model(x@)[m], array_model(y@)[m]),
            array_model(x@).len() == x@.len(),
            array_model(y@).len() == y@.len(),
            forall|m: int|
                0 <= m < x@.len() ==> #[trigger] array_model(x@)[m] == value_model(x@[m]),
            forall|m: int|
                0 <= m < y@.len() ==> #[trigger] array_model(y@)[m] == value_model(y@[m]),
        decreases x@.len() - i,
    {
        if !value_eq(&x[i], &y[i]) {
            assert(!vm_eq(array_model(x@)[i as int], array_model(y@)[i as int]));
            return false;
        }
        i = i + 1;
    }
    true
}

/// Finds the first entry with the given key.
pub fn entries_find(entries: &Vec<(ValueKey, Value)>, key: &ValueKey) -> (r: Option<usize>)
    ensures
        match r {
            Some(j) => j < entries@.len() && entries@[j as int].0@ == key@ && (forall|m: int|
                0 <= m < j ==> (#[trigger] entries@[m]).0@ != key@),
            None => forall|m: int|
                0 <= m < entries@.len() ==> (#[trigger] entries@[m]).0@ != key@,
        },
{
    let mut j: usize = 0;
    while j < entries.len()
        invariant
            0 <= j <= entries@.len(),
            forall|m: int| 0 <= m < j ==> (#[trigger] entries@[m]).0@ != key@,
        decreases entries@.len() - j,
    {
        if entries[j].0.same_key(key) {
            return Some(j);
        }
        j = j + 1;
    }
    None
}

/// Decides `vm_entries_eq` on two entry vectors.
pub fn entries_eq(x: &Vec<(ValueKey, Value)>, y: &Vec<(ValueKey, Value)>) -> (r: bool)
    ensures
        r == vm_entries_eq(entries_model(x@), entries_model(y@)),
    decreases *x,
{
    proof {
        lemma_entries_model(x@);
        lemma_entries_model(y@);
    }
    let ghost mx = entries_model(x@);
    let ghost my = entries_model(y@);
    if x.len() != y.len() {
        return false;
    }
    let mut i: usize = 0;
    while i < x.len()
        invariant
            0 <= i <= x@.len(),
            x@.len() == y@.len(),
            mx == entries_model(x@),
            my == entries_model(y@),
            mx.len() == x@.len(),
            my.len() == y@.len(),
            forall|m: int|
                0 <= m < x@.len() ==> #[trigger] mx[m] == (x@[m].0@, value_model(x@[m].1)),
            forall|m: int|
                0 <= m < y@.len() ==> #[trigger] my[m] == (y@[m].0@, value_model(y@[m].1)),
            forall|m: int|
                0 <= m < i ==> model_lookup(my, (#[trigger] mx[m]).0) is Some && vm_eq(
                    mx[m].1,
                    model_lookup(my, mx[m].0).unwrap(),
                ),
        decreases x@.len() - i,
    {
        let key = &x[i].0;
        match entries_find(y, key) {
            Some(j) => {
                proof {
                    lemma_lookup_at(my, key@, j as int);
                }
                if !value_eq(&x[i].1, &y[j].1) {
                    assert(!vm_eq(mx[i as int].1, model_lookup(my, mx[i as int].0).unwrap()));
                    return false;
                }
            },
            None => {
                proof {
                    lemma_lookup_absent(my, key@);
                }
                return false;
            },
        }
        i = i + 1;
    }
    true
}

/// Clones a value; the clone has the same model.
pub fn value_clone(v: &Value) -> (r: Value)
    ensures
        r@ == v@,
    decreases *v,
{
    match v {
        Value::String(s) => Value::String(s.clone()),
        Value::Number(n) => Value::Number(n.clone()),
        Value::Boolean(b) => Value::Boolean(*b),
        Value::Null => Value::Null,
        Value::Undefined => Value::Undefined,
        Value::DateTime(d) => Value::DateTime(*d),
        Value::Array(a) => Value::Array(Array { values: clone_values(&a.values) }),
        Value::Object(o) => Value::Object(
            Object { sorted: o.sorted, entries: clone_entries(&o.entries) },
        ),
    }
}

/// Clones a vector of values; the clones have the same models.
pub fn clone_values(x: &Vec<Value>) -> (r: Vec<Value>)
    ensures
        array_model(r@) == array_model(x@),
        r@.len() == x@.len(),
    decreases *x,
{
    proof {
        lemma_array_model(x@);
    }
    let mut out: Vec<Value> = Vec::new();
    let mut i: usize = 0;
    while i < x.len()
        invariant
            0 <= i <= x@.len(),
            out@.len() == i,
            forall|m: int|
                0 <= m < x@.len() ==> #[trigger] array_model(x@)[m] == value_model(x@[m]),
            array_model(x@).len() == x@.len(),
            forall|m: int| 0 <= m < i ==> value_model(#[trigger] out@[m]) == value_model(x@[m]),
        decreases x@.len() - i,
    {
        let c = value_clone(&x[i]);
        out.push(c);
        i = i + 1;
    }
    proof {
        lemma_array_model(out@);
        assert(array_model(out@) =~= array_model(x@));
    }
    out
}

/// Clones a vector of entries; the clones have the same models.
pub fn clone_entries(x: &Vec<(ValueKey, Value)>) -> (r: Vec<(ValueKey, Value)>)
    ensures
        entries_model(r@) == entries_model(x@),
        r@.len() == x@.len(),
    decreases *x,
{
    proof {
        lemma_entries_model(x@);
    }
    let mut out: Vec<(ValueKey, Value)> = Vec::new();
    let mut i: usize = 0;
    while i < x.len()
        invariant
            0 <= i <= x@.len(),
            out@.len() == i,
            forall|m: int|
                0 <= m < x@.len() ==> #[trigger] entries_model(x@)[m] == (x@[m].0@, value_model(
                    x@[m].1,
                )),
            entries_model(x@).len() == x@.len(),
            forall|m: int|
                0 <= m < i ==> (#[trigger] out@[m]).0@ == x@[m].0@ && value_model(out@[m].1)
                    == value_model(x@[m].1),
        decreases x@.len() - i,
    {
        let k = x[i].0.clone();
        let v = value_clone(&x[i].1);
        out.push((k, v));
        i = i + 1;
    }
    proof {
        lemma_entries_model(out@);
        assert(entries_model(out@) =~= entries_model(x@));
    }
    out
}

impl Clone for Value {
    fn clone(&self) -> (r: Self)
        ensures
            r@ == self@,
    {
        value_clone(self)
    }
}

impl PartialEq for Value {
    fn eq(&self, other: &Self) -> (r: bool) {
        value_eq(self, other)
    }
}

impl vstd::std_specs::cmp::PartialEqSpecImpl for Value {
    open spec fn obeys_eq_spec() -> bool {
        true
    }

    open spec fn eq_spec(&self, other: &Value) -> bool {
        vm_eq(self@, other@)
    }
}

impl Default for Value {
    /// The null value.
    fn default() -> (r: Self)
        ensures
            r@ == ValueModel::Nothing,
    {
        Value::Null
    }
}

// ---------------------------------------------------------------------------
// Where an insertion lands, and what it leaves behind.
// ---------------------------------------------------------------------------

/// The position of the first entry with the given key.
pub open spec fn entry_index(entries: Seq<(KeyModel, ValueModel)>, k: KeyModel) -> int
    decreases entries.len(),
{
    if entries.len() == 0 {
        0
    } else if entries[0].0 == k {
        0
    } else {
        1 + entry_index(entries.drop_first(), k)
    }
}

/// The place a new key takes in a sorted entry sequence: right after the
/// leading run of smaller keys.
pub open spec fn sorted_pos(entries: Seq<(KeyModel, ValueModel)>, k: KeyModel) -> int
    decreases entries.len(),
{
    if entries.len() == 0 {
        0
    } else if crate::value_key::key_lt(entries[0].0, k) {
        1 + sorted_pos(entries.drop_first(), k)
    } else {
        0
    }
}

/// What one insertion leaves: a held key's entry replaced in place, a new key
/// inserted at its sorted place or appended, by the backing.
pub open spec fn model_insert(
    entries: Seq<(KeyModel, ValueModel)>,
    sorted: bool,
    k: KeyModel,
    vm: ValueModel,
) -> Seq<(KeyModel, ValueModel)> {
    if model_lookup(entries, k) is Some {
        entries.update(entry_index(entries, k), (k, vm))
    } else if sorted {
        entries.insert(sorted_pos(entries, k), (k, vm))
    } else {
        entries.push((k, vm))
    }
}

/// Where the lookup finds a key, `entry_index` names the first entry with
/// it.
pub proof fn lemma_entry_index_props(entries: Seq<(KeyModel, ValueModel)>, k: KeyModel)
    requires
        model_lookup(entries, k) is Some,
    ensures
        0 <= entry_index(entries, k) < entries.len(),
        entries[entry_index(entries, k)].0 == k,
        forall|m: int| 0 <= m < entry_index(entries, k) ==> (#[trigger] entries[m]).0 != k,
    decreases entries.len(),
{
    if entries.len() > 0 && entries[0].0 != k {
        let rest = entries.drop_first();
        lemma_entry_index_props(rest, k);
        assert forall|m: int| 0 <= m < entry_index(entries, k) implies (#[trigger] entries[m]).0
            != k by {
            if m > 0 {
                assert(rest[m - 1] == entries[m]);
            }
        }
    }
}

/// The first match at position `j` pins `entry_index` to `j`.
pub proof fn lemma_entry_index(entries: Seq<(KeyModel, ValueModel)>, k: KeyModel, j: int)
    requires
        0 <= j < entries.len(),
        entries[j].0 == k,
        forall|m: int| 0 <= m < j ==> (#[trigger] entries[m]).0 != k,
    ensures
        entry_index(entries, k) == j,
    decreases j,
{
    if j > 0 {
        assert(entries[0].0 != k);
        lemma_entry_index(entries.drop_first(), k, j - 1);
        assert(forall|m: int|
            0 <= m < entries.drop_first().len() ==> entries.drop_first()[m]
                == #[trigger] entries[m + 1]);
    }
}

/// A leading run of smaller keys of length `p`, ended by the sequence or a
/// key not below, pins `sorted_pos` to `p`.
pub proof fn lemma_sorted_pos_at(entries: Seq<(KeyModel, ValueModel)>, k: KeyModel, p: int)
    requires
        0 <= p <= entries.len(),
        forall|m: int| 0 <= m < p ==> crate::value_key::key_lt((#[trigger] entries[m]).0, k),
        p < entries.len() ==> !crate::value_key::key_lt(entries[p].0, k),
    ensures
        sorted_pos(entries, k) == p,
    decreases p,
{
    if p > 0 {
        lemma_sorted_pos_at(entries.drop_first(), k, p - 1);
        assert(forall|m: int|
            0 <= m < entries.drop_first().len() ==> entries.drop_first()[m]
                == #[trigger] entries[m + 1]);
    } else {
        if entries.len() > 0 {
            assert(!crate::value_key::key_lt(entries[0].0, k));
        }
    }
}

/// `sorted_pos` stays within the sequence.
pub proof fn lemma_sorted_pos_bounds(entries: Seq<(KeyModel, ValueModel)>, k: KeyModel)
    ensures
        0 <= sorted_pos(entries, k) <= entries.len(),
    decreases entries.len(),
{
    if entries.len() > 0 && crate::value_key::key_lt(entries[0].0, k) {
        lemma_sorted_pos_bounds(entries.drop_first(), k);
    }
}

/// In a sorted sequence, keys before `sorted_pos` lie below the key and keys
/// from it on do not.
pub proof fn lemma_sorted_pos_props(entries: Seq<(KeyModel, ValueModel)>, k: KeyModel)
    requires
        keys_sorted(entries),
    ensures
        forall|m: int|
            0 <= m < sorted_pos(entries, k) ==> crate::value_key::key_lt(
                (#[trigger] entries[m]).0,
                k,
            ),
        forall|m: int|
            sorted_pos(entries, k) <= m < entries.len() ==> !crate::value_key::key_lt(
                (#[trigger] entries[m]).0,
                k,
            ),
    decreases entries.len(),
{
    lemma_sorted_pos_bounds(entries, k);
    let p = sorted_pos(entries, k);
    if entries.len() > 0 && crate::value_key::key_lt(entries[0].0, k) {
        let rest = entries.drop_first();
        assert(keys_sorted(rest)) by {
            assert(forall|m: int| 0 <= m < rest.len() ==> rest[m] == #[trigger] entries[m + 1]);
        }
        lemma_sorted_pos_props(rest, k);
        assert(sorted_pos(rest, k) == p - 1);
        assert forall|m: int| 0 <= m < p implies crate::value_key::key_lt(
            (#[trigger] entries[m]).0,
            k,
        ) by {
            if m > 0 {
                assert(rest[m - 1] == entries[m]);
            }
        }
        assert forall|m: int| p <= m < entries.len() implies !crate::value_key::key_lt(
            (#[trigger] entries[m]).0,
            k,
        ) by {
            assert(rest[m - 1] == entries[m]);
        }
    } else if entries.len() > 0 {
        assert(p == 0);
        assert forall|m: int| 0 <= m < entries.len() implies !crate::value_key::key_lt(
            (#[trigger] entries[m]).0,
            k,
        ) by {
            if m > 0 {
                assert(crate::value_key::key_lt(entries[0].0, entries[m].0));
                if crate::value_key::key_lt(entries[m].0, k) {
                    crate::value_key::lemma_key_lt_trans(entries[0].0, entries[m].0, k);
                }
            }
        }
    }
}

/// When the lookup finds nothing, no entry carries the key.
pub proof fn lemma_lookup_found_key(entries: Seq<(KeyModel, ValueModel)>, k: KeyModel)
    requires
        model_lookup(entries, k) is None,
    ensures
        forall|m: int| 0 <= m < entries.len() ==> (#[trigger] entries[m]).0 != k,
    decreases entries.len(),
{
    if entries.len() > 0 {
        let rest = entries.drop_first();
        lemma_lookup_found_key(rest, k);
        assert forall|m: int| 0 <= m < entries.len() implies (#[trigger] entries[m]).0 != k by {
            if m > 0 {
                assert(rest[m - 1] == entries[m]);
            }
        }
    }
}

} // verus!
