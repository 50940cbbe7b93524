//! The mathematical value of an array, and the operations on it that the
//! contracts of [`crate::array::Array`] are written in.

use crate::array::ArrayError;
use vstd::prelude::*;

verus! {

/// The abstract value of an array: what every slot holds, and how many of the
/// slots, counted from the front, are occupied.
pub struct ArrayView<T> {
    /// The content of each slot, occupied or not. Its length is the capacity.
    pub slots: Seq<T>,
    /// The number of occupied slots.
    pub len: nat,
}

impl<T> ArrayView<T> {
    /// No more slots are occupied than exist.
    pub open spec fn wf(self) -> bool {
        self.len <= self.slots.len()
    }

    /// An array of `capacity` slots, none occupied, each holding `fill`.
    pub open spec fn blank(capacity: nat, fill: T) -> Self {
        ArrayView { slots: Seq::new(capacity, |i: int| fill), len: 0 }
    }

    /// The number of slots, occupied or not.
    pub open spec fn capacity(self) -> nat {
        self.slots.len()
    }

    /// No slot is occupied.
    pub open spec fn is_empty(self) -> bool {
        self.len == 0
    }

    /// Every slot is occupied.
    pub open spec fn is_full(self) -> bool {
        self.len >= self.slots.len()
    }

    /// The occupied slots, in order.
    pub open spec fn elements(self) -> Seq<T> {
        self.slots.take(self.len as int)
    }

    /// Whether slot `i` may be read or written. Every occupied slot may, and so
    /// may the first vacant one where there is one: what it holds is a default
    /// value or whatever was last written there.
    pub open spec fn admits(self, i: int) -> bool {
        0 <= i <= self.len && i < self.slots.len()
    }

    /// The array with `value` placed in the first vacant slot, which thereby
    /// becomes occupied.
    pub open spec fn push(self, value: T) -> Self {
        ArrayView { slots: self.slots.update(self.len as int, value), len: self.len + 1 }
    }

    /// The outcome of a checked insertion: a full array stays as it is and
    /// reports an overflow, any other takes the value.
    pub open spec fn try_push(self, value: T) -> (Self, Result<(), ArrayError>) {
        if self.is_full() {
            (self, Err(ArrayError::Overflow))
        } else {
            (self.push(value), Ok(()))
        }
    }

    /// The array with the content of slot `i` replaced by `value`.
    pub open spec fn write(self, i: int, value: T) -> Self {
        ArrayView { slots: self.slots.update(i, value), len: self.len }
    }

    /// The array after each of `values`, in turn, has gone through the checked
    /// insertion.
    pub open spec fn try_push_all(self, values: Seq<T>) -> Self
        decreases values.len(),
    {
        if values.len() == 0 {
            self
        } else {
            self.try_push_all(values.drop_last()).try_push(values.last()).0
        }
    }

    /// Whether the checked insertion accepts each of `values` in turn.
    pub open spec fn accepts_all(self, values: Seq<T>) -> bool
        decreases values.len(),
    {
        values.len() == 0 || {
            &&& self.accepts_all(values.drop_last())
            &&& self.try_push_all(values.drop_last()).try_push(values.last()).1 is Ok
        }
    }
}

} // verus!
