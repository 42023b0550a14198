//! `Object`: a key-value container with two backings — key-sorted or
//! insertion-ordered — chosen at construction, behind one uniform contract.
use crate::traits::{ToValueBehavior, ValueKeyBehavior};
use std::collections::BTreeMap;
use std::collections::HashMap;
use crate::value::{entries_model, entry_index, keys_of, keys_sorted, keys_unique,
    lemma_entries_model, lemma_lookup_absent, lemma_lookup_at, model_insert, model_lookup, obj_wf,
    sorted_pos, value_model, ObjModel, Value, ValueModel, clone_entries, entries_find};
use crate::value_key::{key_lt, KeyModel, ValueKey};
use vstd::prelude::*;

verus! {

/// A key-value container. `sorted` fixes the backing: entries kept in key
/// order, or in insertion order.
#[derive(Debug)]
pub struct Object {
    pub sorted: bool,
    pub entries: Vec<(ValueKey, Value)>,
}

impl View for Object {
    type V = ObjModel;

    open spec fn view(&self) -> ObjModel {
        ObjModel { sorted: self.sorted, entries: entries_model(self.entries@) }
    }
}

impl Clone for Object {
    fn clone(&self) -> (r: Self)
        ensures
            r@ == self@,
    {
        Object { sorted: self.sorted, entries: clone_entries(&self.entries) }
    }
}

impl PartialEq for Object {
    fn eq(&self, other: &Self) -> (r: bool) {
        self.sorted == other.sorted && crate::value::entries_eq(&self.entries, &other.entries)
    }
}

impl vstd::std_specs::cmp::PartialEqSpecImpl for Object {
    open spec fn obeys_eq_spec() -> bool {
        true
    }

    open spec fn eq_spec(&self, other: &Object) -> bool {
        self@.sorted == other@.sorted && crate::value::vm_entries_eq(
            self@.entries,
            other@.entries,
        )
    }
}

impl Default for Object {
    /// An empty object with the insertion-ordered backing.
    fn default() -> (r: Self)
        ensures
            r@ == (ObjModel { sorted: false, entries: Seq::<(KeyModel, ValueModel)>::empty() }),
    {
        Object { sorted: false, entries: Vec::new() }
    }
}

impl Object {
    /// An empty object with the key-sorted backing.
    pub fn new_sorted() -> (r: Self)
        ensures
            r@ == (ObjModel { sorted: true, entries: Seq::<(KeyModel, ValueModel)>::empty() }),
    {
        Object { sorted: true, entries: Vec::new() }
    }

    /// The value at a key, when the object holds the key.
    pub fn get<T: ValueKeyBehavior>(&self, key: T) -> (r: Option<&Value>)
        ensures
            match r {
                Some(v) => model_lookup(self@.entries, key.key_model()) == Some(value_model(*v)),
                None => model_lookup(self@.entries, key.key_model()) is None,
            },
    {
        let vk = key.to_value_key();
        proof {
            lemma_entries_model(self.entries@);
        }
        match entries_find(&self.entries, &vk) {
            Some(j) => {
                proof {
                    lemma_lookup_at(self@.entries, vk@, j as int);
                }
                Some(&self.entries[j].1)
            },
            None => {
                proof {
                    lemma_lookup_absent(self@.entries, vk@);
                }
                None
            },
        }
    }

    /// A mutable borrow of the value at a key, when the object holds it; the
    /// object afterwards holds whatever the borrow was left as, at the same
    /// place.
    pub fn get_mut<T: ValueKeyBehavior>(&mut self, key: T) -> (r: Option<&mut Value>)
        ensures
            match model_lookup(old(self)@.entries, key.key_model()) {
                Some(prev) => {
                    &&& r is Some
                    &&& value_model(*r.unwrap()) == prev
                    &&& final(self).sorted == old(self).sorted
                    &&& final(self)@.entries =~= old(self)@.entries.update(
                        entry_index(old(self)@.entries, key.key_model()),
                        (key.key_model(), value_model(*final(r.unwrap()))),
                    )
                },
                None => r is None && *final(self) == *old(self),
            },
    {
        broadcast use crate::value::lemma_entries_model_len, crate::value::lemma_entries_model_index;

        let vk = key.to_value_key();
        match entries_find(&self.entries, &vk) {
            Some(j) => {
                proof {
                    lemma_lookup_at(self@.entries, vk@, j as int);
                    crate::value::lemma_entry_index(self@.entries, vk@, j as int);
                }
                let element = &mut self.entries[j];
                let inner = &mut element.1;
                Some(inner)
            },
            None => {
                proof {
                    lemma_lookup_absent(self@.entries, vk@);
                }
                None
            },
        }
    }

    /// Removes every entry; the backing choice stays.
    pub fn clean(&mut self)
        ensures
            final(self)@ == (ObjModel {
                sorted: old(self).sorted,
                entries: Seq::<(KeyModel, ValueModel)>::empty(),
            }),
    {
        self.entries = Vec::new();
    }

    /// Puts a value at a key and returns the value the key held before, if
    /// any. A held key keeps its place; a new key goes to its sorted place or
    /// to the end, by the backing.
    pub fn insert<T: ValueKeyBehavior>(&mut self, key: T, value: Value) -> (r: Option<Value>)
        ensures
            final(self).sorted == old(self).sorted,
            final(self)@.entries == model_insert(
                old(self)@.entries,
                old(self).sorted,
                key.key_model(),
                value_model(value),
            ),
            match r {
                Some(prev) => model_lookup(old(self)@.entries, key.key_model()) == Some(
                    value_model(prev),
                ),
                None => model_lookup(old(self)@.entries, key.key_model()) is None,
            },
            obj_wf(old(self)@) ==> obj_wf(final(self)@),
    {
        let vk = key.to_value_key();
        self.insert_key(vk, value)
    }

    /// Puts a value at a `ValueKey`; the core of `insert`.
    pub fn insert_key(&mut self, vk: ValueKey, value: Value) -> (r: Option<Value>)
        ensures
            final(self).sorted == old(self).sorted,
            final(self)@.entries == model_insert(
                old(self)@.entries,
                old(self).sorted,
                vk@,
                value_model(value),
            ),
            match r {
                Some(prev) => model_lookup(old(self)@.entries, vk@) == Some(value_model(prev)),
                None => model_lookup(old(self)@.entries, vk@) is None,
            },
            obj_wf(old(self)@) ==> obj_wf(final(self)@),
    {
        proof {
            lemma_entries_model(self.entries@);
        }
        let ghost km = vk@;
        let ghost oldm = self@.entries;
        match entries_find(&self.entries, &vk) {
            Some(j) => {
                proof {
                    lemma_lookup_at(oldm, vk@, j as int);
                    crate::value::lemma_entry_index(oldm, vk@, j as int);
                }
                let prev = self.entries[j].1.clone();
                self.entries[j] = (vk, value);
                proof {
                    lemma_entries_model(self.entries@);
                    assert(self@.entries =~= oldm.update(
                        j as int,
                        (km, value_model(value)),
                    ));
                    if obj_wf(old(self)@) {
                        lemma_wf_update(oldm, old(self).sorted, j as int, value_model(value));
                    }
                }
                Some(prev)
            },
            None => {
                proof {
                    lemma_lookup_absent(oldm, vk@);
                }
                if self.sorted {
                    let pos = self.sorted_insert_pos(&vk);
                    self.entries.insert(pos, (vk, value));
                    proof {
                        lemma_entries_model(self.entries@);
                        assert(self@.entries =~= oldm.insert(
                            pos as int,
                            (km, value_model(value)),
                        ));
                        if obj_wf(old(self)@) {
                            lemma_wf_sorted_insert(
                                oldm,
                                pos as int,
                                km,
                                value_model(value),
                            );
                        }
                    }
                } else {
                    self.entries.push((vk, value));
                    proof {
                        lemma_entries_model(self.entries@);
                        assert(self@.entries =~= oldm.push((km, value_model(value))));
                        if obj_wf(old(self)@) {
                            assert(keys_unique(self@.entries));
                        }
                    }
                }
                None
            },
        }
    }

    /// The place a new key takes in the sorted backing: after the leading run
    /// of smaller keys.
    fn sorted_insert_pos(&self, key: &ValueKey) -> (r: usize)
        ensures
            r as int == sorted_pos(self@.entries, key@),
            r <= self@.entries.len(),
    {
        proof {
            lemma_entries_model(self.entries@);
        }
        let mut pos: usize = 0;
        while pos < self.entries.len()
            invariant
                0 <= pos <= self.entries@.len(),
                entries_model(self.entries@).len() == self.entries@.len(),
                forall|m: int|
                    0 <= m < self.entries@.len() ==> #[trigger] entries_model(self.entries@)[m]
                        == (self.entries@[m].0@, value_model(self.entries@[m].1)),
                forall|m: int|
                    0 <= m < pos ==> key_lt((#[trigger] entries_model(self.entries@)[m]).0, key@),
            decreases self.entries@.len() - pos,
        {
            if !self.entries[pos].0.lt(key) {
                proof {
                    crate::value::lemma_sorted_pos_at(self@.entries, key@, pos as int);
                }
                return pos;
            }
            pos = pos + 1;
        }
        proof {
            crate::value::lemma_sorted_pos_at(self@.entries, key@, pos as int);
        }
        pos
    }

    /// Removes the entry at a key and returns its value, if the key was held.
    pub fn remove<T: ValueKeyBehavior>(&mut self, key: &T) -> (r: Option<Value>)
        ensures
            final(self).sorted == old(self).sorted,
            match r {
                Some(prev) => {
                    &&& model_lookup(old(self)@.entries, key.key_model()) == Some(
                        value_model(prev),
                    )
                    &&& final(self)@.entries == old(self)@.entries.remove(
                        entry_index(old(self)@.entries, key.key_model()),
                    )
                },
                None => {
                    &&& model_lookup(old(self)@.entries, key.key_model()) is None
                    &&& *final(self) == *old(self)
                },
            },
    {
        let vk = key.to_value_key();
        proof {
            lemma_entries_model(self.entries@);
        }
        let ghost oldm = self@.entries;
        match entries_find(&self.entries, &vk) {
            Some(j) => {
                proof {
                    lemma_lookup_at(oldm, vk@, j as int);
                    crate::value::lemma_entry_index(oldm, vk@, j as int);
                }
                let entry = self.entries.remove(j);
                proof {
                    lemma_entries_model(self.entries@);
                    assert(self@.entries =~= oldm.remove(j as int));
                }
                Some(entry.1)
            },
            None => {
                proof {
                    lemma_lookup_absent(oldm, vk@);
                }
                None
            },
        }
    }

    /// Whether the object holds the key.
    pub fn contains_key<T: ValueKeyBehavior>(&self, key: &T) -> (r: bool)
        ensures
            r == (model_lookup(self@.entries, key.key_model()) is Some),
    {
        let vk = key.to_value_key();
        proof {
            lemma_entries_model(self.entries@);
        }
        match entries_find(&self.entries, &vk) {
            Some(j) => {
                proof {
                    lemma_lookup_at(self@.entries, vk@, j as int);
                }
                true
            },
            None => {
                proof {
                    lemma_lookup_absent(self@.entries, vk@);
                }
                false
            },
        }
    }

    /// The keys, in iteration order.
    pub fn keys(&self) -> (r: Vec<&ValueKey>)
        ensures
            r@.len() == self@.entries.len(),
            forall|i: int| 0 <= i < r@.len() ==> (#[trigger] r@[i])@ == keys_of(self@.entries)[i],
    {
        proof {
            lemma_entries_model(self.entries@);
        }
        let mut out: Vec<&ValueKey> = Vec::new();
        let mut i: usize = 0;
        while i < self.entries.len()
            invariant
                0 <= i <= self.entries@.len(),
                out@.len() == i,
                entries_model(self.entries@).len() == self.entries@.len(),
                forall|m: int|
                    0 <= m < self.entries@.len() ==> #[trigger] entries_model(self.entries@)[m]
                        == (self.entries@[m].0@, value_model(self.entries@[m].1)),
                forall|m: int|
                    0 <= m < i ==> (#[trigger] out@[m])@ == entries_model(self.entries@)[m].0,
            decreases self.entries@.len() - i,
        {
            out.push(&self.entries[i].0);
            i = i + 1;
        }
        out
    }

    /// The values, in iteration order.
    pub fn values(&self) -> (r: Vec<&Value>)
        ensures
            r@.len() == self@.entries.len(),
            forall|i: int|
                0 <= i < r@.len() ==> value_model(*(#[trigger] r@[i])) == self@.entries[i].1,
    {
        proof {
            lemma_entries_model(self.entries@);
        }
        let mut out: Vec<&Value> = Vec::new();
        let mut i: usize = 0;
        while i < self.entries.len()
            invariant
                0 <= i <= self.entries@.len(),
                out@.len() == i,
                entries_model(self.entries@).len() == self.entries@.len(),
                forall|m: int|
                    0 <= m < self.entries@.len() ==> #[trigger] entries_model(self.entries@)[m]
                        == (self.entries@[m].0@, value_model(self.entries@[m].1)),
                forall|m: int|
                    0 <= m < i ==> value_model(*(#[trigger] out@[m])) == entries_model(
                        self.entries@,
                    )[m].1,
            decreases self.entries@.len() - i,
        {
            out.push(&self.entries[i].1);
            i = i + 1;
        }
        out
    }

    /// How many entries the object holds.
    pub fn len(&self) -> (r: usize)
        ensures
            r == self@.entries.len(),
    {
        proof {
            lemma_entries_model(self.entries@);
        }
        self.entries.len()
    }

    /// Whether the object holds no entries.
    pub fn is_empty(&self) -> (r: bool)
        ensures
            r == (self@.entries.len() == 0),
    {
        self.len() == 0
    }

    /// An iterator over the entries, in iteration order.
    pub fn iter<'a>(&'a self) -> (r: ObjectIter<'a>)
        ensures
            r.entries@ == self.entries@,
            r.at == 0,
    {
        ObjectIter { entries: &self.entries, at: 0 }
    }
}

/// An iterator over an object's entries, front to back.
pub struct ObjectIter<'a> {
    pub entries: &'a Vec<(ValueKey, Value)>,
    pub at: usize,
}

impl<'a> ObjectIter<'a> {
    /// The next entry, until all have been handed out.
    pub fn next(&mut self) -> (r: Option<(&'a ValueKey, &'a Value)>)
        ensures
            final(self).entries == old(self).entries,
            match r {
                Some(pair) => {
                    &&& old(self).at < old(self).entries@.len()
                    &&& final(self).at == old(self).at + 1
                    &&& pair.0@ == old(self).entries@[old(self).at as int].0@
                    &&& value_model(*pair.1) == value_model(
                        old(self).entries@[old(self).at as int].1,
                    )
                },
                None => old(self).at >= old(self).entries@.len() && final(self).at == old(
                    self,
                ).at,
            },
    {
        if self.at < self.entries.len() {
            let pair = (&self.entries[self.at].0, &self.entries[self.at].1);
            self.at = self.at + 1;
            Some(pair)
        } else {
            None
        }
    }
}

/// Updating an entry in place with the same key keeps well-formedness.
pub proof fn lemma_wf_update(
    entries: Seq<(KeyModel, ValueModel)>,
    sorted: bool,
    j: int,
    vm: ValueModel,
)
    requires
        0 <= j < entries.len(),
        keys_unique(entries),
        sorted ==> keys_sorted(entries),
    ensures
        keys_unique(entries.update(j, (entries[j].0, vm))),
        sorted ==> keys_sorted(entries.update(j, (entries[j].0, vm))),
{
    let updated = entries.update(j, (entries[j].0, vm));
    assert(forall|m: int| 0 <= m < entries.len() ==> (#[trigger] updated[m]).0 == entries[m].0);
}

/// Inserting an absent key at its sorted place keeps well-formedness.
pub proof fn lemma_wf_sorted_insert(
    entries: Seq<(KeyModel, ValueModel)>,
    pos: int,
    k: KeyModel,
    vm: ValueModel,
)
    requires
        keys_unique(entries),
        keys_sorted(entries),
        pos == sorted_pos(entries, k),
        model_lookup(entries, k) is None,
    ensures
        keys_unique(entries.insert(pos, (k, vm))),
        keys_sorted(entries.insert(pos, (k, vm))),
{
    crate::value::lemma_sorted_pos_bounds(entries, k);
    crate::value::lemma_sorted_pos_props(entries, k);
    crate::value::lemma_lookup_found_key(entries, k);
    let inserted = entries.insert(pos, (k, vm));
    assert(forall|m: int| 0 <= m < pos ==> (#[trigger] inserted[m]).0 == entries[m].0);
    assert(forall|m: int|
        pos < m < inserted.len() ==> (#[trigger] inserted[m]).0 == entries[m - 1].0);
    assert(inserted[pos].0 == k);
    assert forall|i: int, j: int| 0 <= i < j < inserted.len() implies key_lt(
        (#[trigger] inserted[i]).0,
        (#[trigger] inserted[j]).0,
    ) by {
        if i == pos {
            let e = entries[j - 1].0;
            assert(inserted[j].0 == e);
            assert(!key_lt(e, k));
            assert(e != k);
            crate::value_key::lemma_key_lt_trichotomy(e, k);
        } else if j == pos {
            assert(inserted[i].0 == entries[i].0);
            assert(key_lt(entries[i].0, k));
        } else if i < pos && j > pos {
            assert(i < j - 1);
            assert(key_lt(entries[i].0, entries[j - 1].0));
        }
    }
    assert(keys_sorted(inserted));
    assert forall|i: int, j: int| 0 <= i < j < inserted.len() implies (
    #[trigger] inserted[i]).0 != (#[trigger] inserted[j]).0 by {
        assert(key_lt(inserted[i].0, inserted[j].0));
        crate::value_key::lemma_key_lt_trichotomy(inserted[i].0, inserted[j].0);
    }
}

/// Relies on `HashMap::iter`: it yields every entry of the map exactly once
/// — one pair per key, each pair an entry, every key covered.
#[verifier::external_body]
fn hash_map_refs<'a, K, V>(m: &'a HashMap<K, V>) -> (r: Vec<(&'a K, &'a V)>)
    ensures
        r@.len() == m@.dom().len(),
        forall|i: int, j: int| 0 <= i < j < r@.len() ==> *(#[trigger] r@[i]).0 != *(#[trigger] r@[j]).0,
        forall|i: int|
            0 <= i < r@.len() ==> m@.dom().contains(*(#[trigger] r@[i]).0) && m@[*r@[i].0]
                == *r@[i].1,
        forall|k: K|
            #[trigger] m@.dom().contains(k) ==> exists|i: int|
                0 <= i < r@.len() && *(#[trigger] r@[i]).0 == k,
{
    m.iter().collect()
}

/// Relies on `BTreeMap::iter`: it yields every entry of the map exactly once
/// — one pair per key, each pair an entry, every key covered.
#[verifier::external_body]
fn btree_map_refs<'a, K, V>(m: &'a BTreeMap<K, V>) -> (r: Vec<(&'a K, &'a V)>)
    ensures
        r@.len() == m@.dom().len(),
        forall|i: int, j: int| 0 <= i < j < r@.len() ==> *(#[trigger] r@[i]).0 != *(#[trigger] r@[j]).0,
        forall|i: int|
            0 <= i < r@.len() ==> m@.dom().contains(*(#[trigger] r@[i]).0) && m@[*r@[i].0]
                == *r@[i].1,
        forall|k: K|
            #[trigger] m@.dom().contains(k) ==> exists|i: int|
                0 <= i < r@.len() && *(#[trigger] r@[i]).0 == k,
{
    m.iter().collect()
}

/// The witness the map builders leave behind: some enumeration of the map's
/// keys — each in the map, none twice, all of them — whose converted entries,
/// inserted in turn, make up the object.
pub open spec fn object_holds_map_entries<K: ValueKeyBehavior, V: ToValueBehavior>(
    entries: Seq<(KeyModel, ValueModel)>,
    m: Map<K, V>,
    sorted: bool,
) -> bool {
    exists|ks: Seq<K>|
        {
            &&& ks.len() == m.dom().len()
            &&& (forall|i: int| 0 <= i < ks.len() ==> m.dom().contains(#[trigger] ks[i]))
            &&& (forall|i: int, j: int| 0 <= i < j < ks.len() ==> ks[i] != ks[j])
            &&& (forall|k: K| #[trigger] m.dom().contains(k) ==> ks.contains(k))
            &&& entries =~= model_insert_all(
                Seq::<(KeyModel, ValueModel)>::empty(),
                sorted,
                Seq::new(ks.len(), |i: int| (ks[i].key_model(), m[ks[i]].to_value_model())),
            )
        }
}

/// An insertion-ordered object holding the entries of a hash map, each key
/// and value converted: the fold of the map's entries, in the order the map
/// yields them.
pub fn object_from_hash_pairs<K: ValueKeyBehavior, V: ToValueBehavior>(m: &HashMap<K, V>) -> (r:
    Object)
    ensures
        r@.sorted == false,
        obj_wf(r@),
        V::to_value_exact() ==> object_holds_map_entries(r@.entries, m@, false),
{
    let pairs = hash_map_refs(m);
    let ghost ks = Seq::new(pairs@.len(), |i: int| *pairs@[i].0);
    let ghost goal = Seq::new(ks.len(), |i: int| (ks[i].key_model(), m@[ks[i]].to_value_model()));
    let mut object = Object::default();
    let mut i: usize = 0;
    while i < pairs.len()
        invariant
            object@.sorted == false,
            obj_wf(object@),
            0 <= i <= pairs@.len(),
            ks == Seq::new(pairs@.len(), |n: int| *pairs@[n].0),
            goal == Seq::new(
                ks.len(),
                |n: int| (ks[n].key_model(), m@[ks[n]].to_value_model()),
            ),
            forall|n: int|
                0 <= n < pairs@.len() ==> m@.dom().contains(*(#[trigger] pairs@[n]).0)
                    && m@[*pairs@[n].0] == *pairs@[n].1,
            V::to_value_exact() ==> object@.entries == model_insert_all(
                Seq::<(KeyModel, ValueModel)>::empty(),
                false,
                goal.take(i as int),
            ),
        decreases pairs@.len() - i,
    {
        let vk = pairs[i].0.to_value_key();
        let value = pairs[i].1.to_value();
        proof {
            assert(ks[i as int] == *pairs@[i as int].0);
            if V::to_value_exact() {
                assert(value@ == m@[ks[i as int]].to_value_model());
                assert(goal[i as int] == (vk@, value@));
            }
        }
        object.insert_key(vk, value);
        proof {
            if V::to_value_exact() {
                lemma_insert_all_step(
                    Seq::<(KeyModel, ValueModel)>::empty(),
                    false,
                    goal,
                    i as int,
                );
            }
        }
        i = i + 1;
    }
    proof {
        assert(goal.take(pairs@.len() as int) =~= goal);
        if V::to_value_exact() {
            assert forall|k: K| #[trigger] m@.dom().contains(k) implies ks.contains(k) by {
                let n = choose|n: int| 0 <= n < pairs@.len() && *(#[trigger] pairs@[n]).0 == k;
                assert(ks[n] == k);
            }
            assert(object_holds_map_entries::<K, V>(object@.entries, m@, false));
        }
    }
    object
}

/// A key-sorted object holding the entries of an ordered map, each key and
/// value converted: the fold of the map's entries.
pub fn object_from_btree_pairs<K: ValueKeyBehavior, V: ToValueBehavior>(m: &BTreeMap<K, V>) -> (r:
    Object)
    ensures
        r@.sorted == true,
        obj_wf(r@),
        V::to_value_exact() ==> object_holds_map_entries(r@.entries, m@, true),
{
    let pairs = btree_map_refs(m);
    let ghost ks = Seq::new(pairs@.len(), |i: int| *pairs@[i].0);
    let ghost goal = Seq::new(ks.len(), |i: int| (ks[i].key_model(), m@[ks[i]].to_value_model()));
    let mut object = Object::new_sorted();
    let mut i: usize = 0;
    while i < pairs.len()
        invariant
            object@.sorted == true,
            obj_wf(object@),
            0 <= i <= pairs@.len(),
            ks == Seq::new(pairs@.len(), |n: int| *pairs@[n].0),
            goal == Seq::new(
                ks.len(),
                |n: int| (ks[n].key_model(), m@[ks[n]].to_value_model()),
            ),
            forall|n: int|
                0 <= n < pairs@.len() ==> m@.dom().contains(*(#[trigger] pairs@[n]).0)
                    && m@[*pairs@[n].0] == *pairs@[n].1,
            V::to_value_exact() ==> object@.entries == model_insert_all(
                Seq::<(KeyModel, ValueModel)>::empty(),
                true,
                goal.take(i as int),
            ),
        decreases pairs@.len() - i,
    {
        let vk = pairs[i].0.to_value_key();
        let value = pairs[i].1.to_value();
        proof {
            assert(ks[i as int] == *pairs@[i as int].0);
            if V::to_value_exact() {
                assert(value@ == m@[ks[i as int]].to_value_model());
                assert(goal[i as int] == (vk@, value@));
            }
        }
        object.insert_key(vk, value);
        proof {
            if V::to_value_exact() {
                lemma_insert_all_step(
                    Seq::<(KeyModel, ValueModel)>::empty(),
                    true,
                    goal,
                    i as int,
                );
            }
        }
        i = i + 1;
    }
    proof {
        assert(goal.take(pairs@.len() as int) =~= goal);
        if V::to_value_exact() {
            assert forall|k: K| #[trigger] m@.dom().contains(k) implies ks.contains(k) by {
                let n = choose|n: int| 0 <= n < pairs@.len() && *(#[trigger] pairs@[n]).0 == k;
                assert(ks[n] == k);
            }
            assert(object_holds_map_entries::<K, V>(object@.entries, m@, true));
        }
    }
    object
}

/// An object built by inserting the given pairs in turn into the chosen
/// backing: exactly the fold `model_insert_all` describes.
pub fn object_from_pairs(pairs: Vec<(ValueKey, Value)>, sorted: bool) -> (r: Object)
    ensures
        r@.sorted == sorted,
        obj_wf(r@),
        r@.entries == model_insert_all(
            Seq::<(KeyModel, ValueModel)>::empty(),
            sorted,
            entries_model(pairs@),
        ),
{
    broadcast use crate::value::lemma_entries_model_len, crate::value::lemma_entries_model_index;

    let ghost goal = entries_model(pairs@);
    let mut rest = pairs;
    let mut object = if sorted {
        Object::new_sorted()
    } else {
        Object::default()
    };
    let ghost mut done: int = 0;
    while rest.len() > 0
        invariant
            object@.sorted == sorted,
            obj_wf(object@),
            0 <= done <= goal.len(),
            goal.len() == done + rest@.len(),
            entries_model(rest@) =~= goal.skip(done),
            object@.entries == model_insert_all(
                Seq::<(KeyModel, ValueModel)>::empty(),
                sorted,
                goal.take(done),
            ),
        decreases rest@.len(),
    {
        let ghost before_rest = rest@;
        let pair = rest.remove(0);
        proof {
            lemma_entries_model(before_rest);
            lemma_entries_model(rest@);
            assert(pair == before_rest[0]);
            assert(entries_model(before_rest)[0] == (pair.0@, crate::value::value_model(pair.1)));
            assert(goal.skip(done)[0] == goal[done]);
            assert((pair.0@, crate::value::value_model(pair.1)) == goal[done]);
            assert forall|n: int| 0 <= n < rest@.len() implies #[trigger] entries_model(rest@)[n]
                == goal[done + 1 + n] by {
                assert(rest@[n] == before_rest[n + 1]);
                assert(entries_model(before_rest)[n + 1] == goal.skip(done)[n + 1]);
            }
            assert(entries_model(rest@) =~= goal.skip(done + 1));
        }
        object.insert_key(pair.0, pair.1);
        proof {
            lemma_insert_all_step(Seq::<(KeyModel, ValueModel)>::empty(), sorted, goal, done);
        }
        proof {
            done = done + 1;
        }
    }
    proof {
        assert(goal.take(goal.len() as int) =~= goal);
    }
    object
}

/// The entries an insertion sequence leaves behind, first to last.
pub open spec fn model_insert_all(
    acc: Seq<(KeyModel, ValueModel)>,
    sorted: bool,
    pairs: Seq<(KeyModel, ValueModel)>,
) -> Seq<(KeyModel, ValueModel)>
    decreases pairs.len(),
{
    if pairs.len() == 0 {
        acc
    } else {
        model_insert_all(
            model_insert(acc, sorted, pairs[0].0, pairs[0].1),
            sorted,
            pairs.drop_first(),
        )
    }
}

impl<T: ValueKeyBehavior, V: ToValueBehavior> From<Vec<(T, V)>> for Object {
    /// An insertion-ordered object built from key-value pairs, later
    /// occurrences of a key replacing earlier ones.
    fn from(pairs: Vec<(T, V)>) -> (r: Self)
        ensures
            r@.sorted == false,
            obj_wf(r@),
            V::to_value_exact() ==> r@.entries == model_insert_all(
                Seq::<(KeyModel, ValueModel)>::empty(),
                false,
                Seq::new(pairs@.len(), |i: int| (pairs@[i].0.key_model(), pairs@[i].1.to_value_model())),
            ),
    {
        let ghost goal = Seq::new(
            pairs@.len(),
            |i: int| (pairs@[i].0.key_model(), pairs@[i].1.to_value_model()),
        );
        let mut object = Object::default();
        let mut i: usize = 0;
        while i < pairs.len()
            invariant
                object@.sorted == false,
                obj_wf(object@),
                0 <= i <= pairs@.len(),
                goal == Seq::new(
                    pairs@.len(),
                    |m: int| (pairs@[m].0.key_model(), pairs@[m].1.to_value_model()),
                ),
                V::to_value_exact() ==> object@.entries == model_insert_all(
                    Seq::<(KeyModel, ValueModel)>::empty(),
                    false,
                    goal.take(i as int),
                ),
            decreases pairs@.len() - i,
        {
            let vk = pairs[i].0.to_value_key();
            object.insert_key(vk, pairs[i].1.to_value());
            proof {
                if V::to_value_exact() {
                    lemma_insert_all_step(
                        Seq::<(KeyModel, ValueModel)>::empty(),
                        false,
                        goal,
                        i as int,
                    );
                }
            }
            i = i + 1;
        }
        proof {
            assert(goal.take(pairs@.len() as int) =~= goal);
        }
        object
    }
}

impl<T: ValueKeyBehavior, V: ToValueBehavior> vstd::std_specs::convert::FromSpecImpl<Vec<(T, V)>> for Object {
    open spec fn obeys_from_spec() -> bool {
        false
    }

    open spec fn from_spec(pairs: Vec<(T, V)>) -> Object {
        arbitrary()
    }
}

impl<T: ValueKeyBehavior, V: ToValueBehavior> From<HashMap<T, V>> for Object {
    /// An insertion-ordered object holding the map's entries.
    fn from(value: HashMap<T, V>) -> (r: Self)
        ensures
            r@.sorted == false,
            obj_wf(r@),
            V::to_value_exact() ==> object_holds_map_entries(r@.entries, value@, false),
    {
        object_from_hash_pairs(&value)
    }
}

impl<T: ValueKeyBehavior, V: ToValueBehavior> vstd::std_specs::convert::FromSpecImpl<HashMap<T, V>> for Object {
    open spec fn obeys_from_spec() -> bool {
        false
    }

    open spec fn from_spec(value: HashMap<T, V>) -> Object {
        arbitrary()
    }
}

impl<T: ValueKeyBehavior, V: ToValueBehavior> From<BTreeMap<T, V>> for Object {
    /// A key-sorted object holding the map's entries.
    fn from(value: BTreeMap<T, V>) -> (r: Self)
        ensures
            r@.sorted == true,
            obj_wf(r@),
            V::to_value_exact() ==> object_holds_map_entries(r@.entries, value@, true),
    {
        object_from_btree_pairs(&value)
    }
}

impl<T: ValueKeyBehavior, V: ToValueBehavior> vstd::std_specs::convert::FromSpecImpl<BTreeMap<T, V>> for Object {
    open spec fn obeys_from_spec() -> bool {
        false
    }

    open spec fn from_spec(value: BTreeMap<T, V>) -> Object {
        arbitrary()
    }
}

/// One step of `model_insert_all` along a prefix of the pairs.
pub proof fn lemma_insert_all_step(
    acc: Seq<(KeyModel, ValueModel)>,
    sorted: bool,
    pairs: Seq<(KeyModel, ValueModel)>,
    i: int,
)
    requires
        0 <= i < pairs.len(),
    ensures
        model_insert_all(acc, sorted, pairs.take(i + 1)) == model_insert(
            model_insert_all(acc, sorted, pairs.take(i)),
            sorted,
            pairs[i].0,
            pairs[i].1,
        ),
    decreases i,
{
    let one = model_insert(acc, sorted, pairs[0].0, pairs[0].1);
    if i == 0 {
        assert(pairs.take(1).drop_first() =~= Seq::<(KeyModel, ValueModel)>::empty());
        assert(pairs.take(0).len() == 0);
        assert(pairs.take(1)[0] == pairs[0]);
        assert(model_insert_all(acc, sorted, pairs.take(1)) == model_insert_all(
            one,
            sorted,
            pairs.take(1).drop_first(),
        ));
        assert(model_insert_all(one, sorted, Seq::<(KeyModel, ValueModel)>::empty()) == one);
        assert(model_insert_all(acc, sorted, pairs.take(0)) == acc);
    } else {
        assert(pairs.take(i + 1)[0] == pairs[0]);
        assert(pairs.take(i)[0] == pairs[0]);
        lemma_insert_all_step(one, sorted, pairs.drop_first(), i - 1);
        assert(pairs.take(i + 1).drop_first() =~= pairs.drop_first().take(i));
        assert(pairs.take(i).drop_first() =~= pairs.drop_first().take(i - 1));
        assert(pairs.drop_first()[i - 1] == pairs[i]);
        assert(model_insert_all(acc, sorted, pairs.take(i + 1)) == model_insert_all(
            one,
            sorted,
            pairs.drop_first().take(i),
        ));
        assert(model_insert_all(acc, sorted, pairs.take(i)) == model_insert_all(
            one,
            sorted,
            pairs.drop_first().take(i - 1),
        ));
    }
}

} // verus!
