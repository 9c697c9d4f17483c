//! The list wrapper: owns one of the host runtime's growable arrays of
//! value records.
//!
//! A list stores independent copies of the records pushed into it — pushing
//! never takes the caller's value — and keeps the runtime's semantic order.
//! Its invariant is the descriptor's: the element count never exceeds the
//! reserved capacity.  The list/value conversion protocol lives here
//! together with its round-trip law.

use vstd::prelude::*;

use crate::error::Error;
use crate::value::{list_value_model, models_of, value_list_model, ByondValue, ValueModel};

verus! {

/// One growable array descriptor: the stored records and the capacity the
/// runtime has reserved for them.
pub struct ByondValueList {
    pub(crate) items: Vec<ByondValue>,
    pub(crate) capacity: usize,
}

impl View for ByondValueList {
    type V = Seq<ValueModel>;

    closed spec fn view(&self) -> Seq<ValueModel> {
        models_of(self.items@)
    }
}

impl Default for ByondValueList {
    /// A default list is empty, with nothing reserved.
    fn default() -> (r: ByondValueList)
        ensures
            r@ == Seq::<ValueModel>::empty(),
            r.spec_capacity() == 0,
            r.wf(),
    {
        let r = ByondValueList { items: Vec::new(), capacity: 0 };
        proof {
            assert(r@ =~= Seq::<ValueModel>::empty());
        }
        r
    }
}

impl ByondValueList {
    /// The reserved capacity of the descriptor.
    pub closed spec fn spec_capacity(&self) -> nat {
        self.capacity as nat
    }

    /// The descriptor invariant: the count never exceeds the capacity.
    pub open spec fn wf(&self) -> bool {
        self@.len() <= self.spec_capacity()
    }

    /// A fresh, empty list.
    pub fn new() -> (r: ByondValueList)
        ensures
            r@ == Seq::<ValueModel>::empty(),
            r.spec_capacity() == 0,
            r.wf(),
    {
        let r = ByondValueList { items: Vec::new(), capacity: 0 };
        proof {
            assert(r@ =~= Seq::<ValueModel>::empty());
        }
        r
    }

    /// A fresh, empty list with storage for `capacity` elements reserved;
    /// no element is created.
    pub fn with_capacity(capacity: usize) -> (r: ByondValueList)
        ensures
            r@ == Seq::<ValueModel>::empty(),
            r.spec_capacity() == capacity,
            r.wf(),
    {
        let r = ByondValueList { items: Vec::with_capacity(capacity), capacity };
        proof {
            assert(r@ =~= Seq::<ValueModel>::empty());
        }
        r
    }

    /// The number of stored elements.
    pub fn len(&self) -> (n: usize)
        ensures
            n == self@.len(),
    {
        self.items.len()
    }

    /// The reserved capacity.
    pub fn capacity(&self) -> (n: usize)
        ensures
            n == self.spec_capacity(),
    {
        self.capacity
    }

    /// The stored element at `index`, while it stays in the list; nothing
    /// when `index` is out of range.
    pub fn get(&self, index: usize) -> (r: Option<&ByondValue>)
        ensures
            index < self@.len() ==> (r matches Some(v) && v@ == self@[index as int]),
            index >= self@.len() ==> r is None,
    {
        if index < self.items.len() {
            Some(&self.items[index])
        } else {
            None
        }
    }

    /// Appends an independent copy of `value`, growing the reserved storage
    /// as needed.  The caller's value is left untouched; the runtime's
    /// append cannot fail at this layer, so the result is always accepted.
    pub fn push(&mut self, value: &ByondValue) -> (r: Result<(), Error>)
        ensures
            r is Ok,
            final(self)@ == old(self)@.push(value@),
            final(self).wf(),
            final(self).spec_capacity() >= old(self).spec_capacity(),
    {
        let copy = value.copy_record();
        self.items.push(copy);
        if self.capacity < self.items.len() {
            self.capacity = self.items.len();
        }
        proof {
            assert(self@ =~= old(self)@.push(value@));
        }
        Ok(())
    }

    /// Inserts an independent copy of `element` at `index`, shifting what
    /// follows.  An index past the current count is a position the
    /// descriptor does not have: the insertion is refused, the list is left
    /// unchanged, and — the runtime recording no message for it — the error
    /// is [`Error::UnknownByondError`].
    pub fn insert(&mut self, index: usize, element: &ByondValue) -> (r: Result<(), Error>)
        ensures
            index <= old(self)@.len() ==> (r is Ok && final(self)@ == old(self)@.insert(
                index as int,
                element@,
            )),
            index > old(self)@.len() ==> (r matches Err(e) && e == Error::UnknownByondError
                && *final(self) == *old(self)),
            final(self).wf() || *final(self) == *old(self),
            final(self).spec_capacity() >= old(self).spec_capacity(),
    {
        if index > self.items.len() {
            return Err(Error::UnknownByondError);
        }
        let copy = element.copy_record();
        self.items.insert(index, copy);
        if self.capacity < self.items.len() {
            self.capacity = self.items.len();
        }
        proof {
            assert(self@ =~= old(self)@.insert(index as int, element@));
        }
        Ok(())
    }

    /// Materializes this list as a single list-typed value holding the
    /// list's contents, in order.  In the runtime this is the fallible
    /// two-step of creating an empty list value and writing the contents
    /// into it; at this layer neither step can fail, so the result is
    /// always accepted and no partially filled value can escape.
    pub fn into_value(self) -> (r: Result<ByondValue, Error>)
        ensures
            r matches Ok(v) && v@ == list_value_model(self@),
    {
        Ok(ByondValue::from_list_items(self.items))
    }

    /// Wraps already-extracted records as a list whose capacity is exactly
    /// its count.
    pub(crate) fn from_items(items: Vec<ByondValue>) -> (r: ByondValueList)
        ensures
            r@ == models_of(items@),
            r.spec_capacity() == items@.len(),
            r.wf(),
    {
        let capacity = items.len();
        ByondValueList { items, capacity }
    }
}

/// Round-trip law: materializing any list contents as a list-typed value
/// and reading that value back as a list yields exactly the same contents —
/// the same count and the same element order.
pub proof fn lemma_list_value_round_trip(items: Seq<ValueModel>)
    ensures
        value_list_model(list_value_model(items)) == Some(items),
{
}

} // verus!
