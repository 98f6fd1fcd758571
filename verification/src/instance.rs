//! The materialized form of an account context: one value per field.

use vstd::prelude::*;

verus! {

/// The values that a parse produced, one per field of the schema and in its
/// declaration order.
///
/// An instance belongs to its caller, who may replace values in it before
/// they are persisted.
pub struct Instance<V: View> {
    values: Vec<V>,
}

impl<V: View> View for Instance<V> {
    type V = Seq<V::V>;

    /// The views of the values, in declaration order.
    closed spec fn view(&self) -> Seq<V::V> {
        self.values@.map_values(|value: V| value@)
    }
}

impl<V: View> Instance<V> {
    /// Binds `values` to the fields of a schema, in declaration order.
    pub fn new(values: Vec<V>) -> (instance: Self)
        ensures
            instance@ == values@.map_values(|value: V| value@),
    {
        Instance { values }
    }

    /// The number of values.
    pub fn len(&self) -> (n: usize)
        ensures
            n == self@.len(),
    {
        self.values.len()
    }

    /// The value of the field at `index`.
    pub fn value(&self, index: usize) -> (value: Option<&V>)
        ensures
            index < self@.len() ==> value is Some && value->Some_0@ == self@[index as int],
            index >= self@.len() ==> value is None,
    {
        if index < self.values.len() {
            Some(&self.values[index])
        } else {
            None
        }
    }

    /// The value of the field at `index`, which the instance has.
    pub(crate) fn value_at(&self, index: usize) -> (value: &V)
        requires
            index < self@.len(),
        ensures
            value@ == self@[index as int],
    {
        &self.values[index]
    }

    /// Replaces the value of the field at `index` and hands the former value
    /// back; outside the instance, hands `value` back and changes nothing.
    pub fn replace(&mut self, index: usize, value: V) -> (former: Result<V, V>)
        ensures
            index < old(self)@.len() ==> {
                &&& former is Ok
                &&& former->Ok_0@ == old(self)@[index as int]
                &&& final(self)@ == old(self)@.update(index as int, value@)
            },
            index >= old(self)@.len() ==> {
                &&& former == Err::<V, V>(value)
                &&& final(self)@ == old(self)@
            },
    {
        if index < self.values.len() {
            let mut value = value;
            core::mem::swap(&mut self.values[index], &mut value);
            Ok(value)
        } else {
            Err(value)
        }
    }

    /// Gives up the values, in declaration order.
    pub fn into_values(self) -> (values: Vec<V>)
        ensures
            values@.map_values(|value: V| value@) == self@,
    {
        self.values
    }
}

} // verus!
