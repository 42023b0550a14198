//! `Array`: an insertion-ordered sequence of values.
use crate::value::{array_model, lemma_array_model, value_model, Value, ValueModel};
use vstd::prelude::*;

verus! {

/// The capability of an ordered container: taking the last value out.
pub trait ArrayBehavior: Sized {
    /// The receiver holds an ordered sequence.
    spec fn items_ok(&self) -> bool;

    /// The models of the values held, in order.
    spec fn items(&self) -> Seq<ValueModel>;

    /// Removes and returns the last value, when there is one.
    fn pop(&mut self) -> (r: Option<Value>)
        requires
            old(self).items_ok(),
        ensures
            final(self).items_ok(),
            match r {
                Some(v) => {
                    &&& old(self).items().len() > 0
                    &&& value_model(v) == old(self).items().last()
                    &&& final(self).items() == old(self).items().drop_last()
                },
                None => old(self).items().len() == 0 && final(self).items() == old(self).items(),
            },
    ;
}

/// An ordered sequence of values.
#[derive(Debug)]
pub struct Array {
    pub values: Vec<Value>,
}

impl View for Array {
    type V = Seq<ValueModel>;

    open spec fn view(&self) -> Seq<ValueModel> {
        array_model(self.values@)
    }
}

impl Clone for Array {
    fn clone(&self) -> (r: Self)
        ensures
            r@ == self@,
    {
        Array { values: crate::value::clone_values(&self.values) }
    }
}

impl PartialEq for Array {
    fn eq(&self, other: &Self) -> (r: bool) {
        crate::value::values_eq(&self.values, &other.values)
    }
}

impl vstd::std_specs::cmp::PartialEqSpecImpl for Array {
    open spec fn obeys_eq_spec() -> bool {
        true
    }

    open spec fn eq_spec(&self, other: &Array) -> bool {
        crate::value::vm_seq_eq(self@, other@)
    }
}

impl Default for Array {
    /// An empty array.
    fn default() -> (r: Self)
        ensures
            r@ == Seq::<ValueModel>::empty(),
    {
        Array { values: Vec::new() }
    }
}

impl Array {
    /// An empty array.
    pub fn new() -> (r: Self)
        ensures
            r@ == Seq::<ValueModel>::empty(),
    {
        Array { values: Vec::new() }
    }

    /// The value at an index, when the index is in bounds.
    pub fn get(&self, index: usize) -> (r: Option<&Value>)
        ensures
            match r {
                Some(v) => index < self@.len() && value_model(*v) == self@[index as int],
                None => index >= self@.len(),
            },
    {
        proof {
            lemma_array_model(self.values@);
        }
        if index < self.values.len() {
            Some(&self.values[index])
        } else {
            None
        }
    }

    /// A mutable borrow of the value at an index, when it is in bounds; the
    /// array afterwards holds whatever the borrow was left as.
    pub fn get_mut(&mut self, index: usize) -> (r: Option<&mut Value>)
        ensures
            index < old(self)@.len() ==> {
                &&& r is Some
                &&& value_model(*r.unwrap()) == old(self)@[index as int]
                &&& final(self)@ =~= old(self)@.update(
                    index as int,
                    value_model(*final(r.unwrap())),
                )
            },
            index >= old(self)@.len() ==> r is None && *final(self) == *old(self),
    {
        broadcast use crate::value::lemma_array_model_len, crate::value::lemma_array_model_index;

        if index < self.values.len() {
            let element = &mut self.values[index];
            Some(element)
        } else {
            None
        }
    }

    /// Empties the array.
    pub fn clean(&mut self)
        ensures
            final(self)@ == Seq::<ValueModel>::empty(),
    {
        self.values = Vec::new();
    }

    /// Appends a value at the end.
    pub fn push(&mut self, value: Value)
        ensures
            final(self)@ == old(self)@.push(value_model(value)),
    {
        proof {
            lemma_array_model(self.values@);
        }
        self.values.push(value);
        proof {
            lemma_array_model(self.values@);
            assert(self@ =~= old(self)@.push(value_model(value)));
        }
    }

    /// Removes and returns the last value, when there is one.
    pub fn pop(&mut self) -> (r: Option<Value>)
        ensures
            match r {
                Some(v) => old(self)@.len() > 0 && value_model(v) == old(self)@.last()
                    && final(self)@ == old(self)@.drop_last(),
                None => old(self)@.len() == 0 && *final(self) == *old(self),
            },
    {
        proof {
            lemma_array_model(self.values@);
        }
        if self.values.len() == 0 {
            return None;
        }
        let v = self.values.pop().unwrap();
        proof {
            lemma_array_model(self.values@);
            assert(self@ =~= old(self)@.drop_last());
        }
        Some(v)
    }

    /// How many values the array holds.
    pub fn len(&self) -> (r: usize)
        ensures
            r == self@.len(),
    {
        proof {
            lemma_array_model(self.values@);
        }
        self.values.len()
    }

    /// Whether the array holds no values.
    pub fn is_empty(&self) -> (r: bool)
        ensures
            r == (self@.len() == 0),
    {
        self.len() == 0
    }
}

impl ArrayBehavior for Array {
    open spec fn items_ok(&self) -> bool {
        true
    }

    open spec fn items(&self) -> Seq<ValueModel> {
        self@
    }

    fn pop(&mut self) -> (r: Option<Value>) {
        Array::pop(self)
    }
}

impl From<Value> for Array {
    /// An array of one value.
    fn from(value: Value) -> (r: Self)
        ensures
            r@ == seq![value_model(value)],
    {
        let mut array = Array::new();
        array.push(value);
        proof {
            assert(array@ =~= seq![value_model(value)]);
        }
        array
    }
}

impl vstd::std_specs::convert::FromSpecImpl<Value> for Array {
    open spec fn obeys_from_spec() -> bool {
        false
    }

    open spec fn from_spec(value: Value) -> Array {
        arbitrary()
    }
}

impl From<Vec<Value>> for Array {
    /// An array of the given values, in their order.
    fn from(values: Vec<Value>) -> (r: Self)
        ensures
            r@ == array_model(values@),
    {
        Array { values }
    }
}

impl vstd::std_specs::convert::FromSpecImpl<Vec<Value>> for Array {
    open spec fn obeys_from_spec() -> bool {
        true
    }

    open spec fn from_spec(values: Vec<Value>) -> Array {
        Array { values }
    }
}

} // verus!
