//! The array itself: construction, the length and capacity queries, insertion
//! at the tail, and access by index.

use crate::model::ArrayView;
use std::ops::{Index, IndexMut};
use vstd::pervasive::unreached;
use vstd::prelude::*;

verus! {

/// List of errors that could occur when dealing with arrays.
#[derive(Debug, Clone, Copy, PartialEq, Eq, Structural)]
pub enum ArrayError {
    /// Signals that an overflow has happened: an element was pushed onto an
    /// array whose every slot was already occupied.
    Overflow,
}

/// A count of occupied slots, never more than `N`.
struct Cursor<const N: usize> {
    at: usize,
}

impl<const N: usize> Cursor<N> {
    #[verifier::type_invariant]
    spec fn in_range(self) -> bool {
        self.at <= N
    }
}

/// An array of at most `N` elements. The storage for all `N` is part of the
/// value and never grows.
pub struct Array<T, const N: usize> {
    elements: [T; N],
    cursor: Cursor<N>,
}

impl<T, const N: usize> View for Array<T, N> {
    type V = ArrayView<T>;

    closed spec fn view(&self) -> ArrayView<T> {
        ArrayView { slots: self.elements@, len: self.cursor.at as nat }
    }
}

impl<T, const N: usize> Array<T, N> {
    /// What holds of every array that a program can get hold of: it has `N`
    /// slots, and no more of them are occupied than exist. No function asks
    /// for it. The constructors, [`len`](Self::len) and every function that
    /// changes an array say that it holds.
    pub open spec fn inv(&self) -> bool {
        &&& self@.capacity() == N
        &&& self@.wf()
    }
}

impl<T: Default + Copy, const N: usize> Default for Array<T, N> {
    /// The same as [`Array::new`].
    fn default() -> (a: Self)
        ensures
            a.inv(),
            a@.len == 0,
            a@.is_empty(),
            a@.capacity() == N,
            exists|fill: T|
                call_ensures(T::default, (), fill) && a@ == ArrayView::blank(N as nat, fill),
    {
        Self::new()
    }
}

impl<T: Default + Copy, const N: usize> Array<T, N> {
    /// Constructs a new array of `N` slots, none of them occupied. Every slot
    /// holds the default value of `T`.
    pub fn new() -> (a: Self)
        ensures
            a.inv(),
            a@.len == 0,
            a@.is_empty(),
            a@.capacity() == N,
            exists|fill: T|
                call_ensures(T::default, (), fill) && a@ == ArrayView::blank(N as nat, fill),
    {
        let fill = T::default();
        let a = Self { elements: [fill; N], cursor: Cursor { at: 0 } };
        assert(a@.slots =~= ArrayView::blank(N as nat, fill).slots);
        a
    }

    /// Returns whether the array is empty. It is empty as long as no value
    /// has been pushed into it.
    pub fn is_empty(&self) -> (b: bool)
        ensures
            b == self@.is_empty(),
    {
        self.cursor.at == 0
    }

    /// Returns the number of elements inside the array. This is in contrast
    /// to [`size`](Self::size), which returns the number of elements that the
    /// array can hold.
    pub fn len(&self) -> (n: usize)
        ensures
            n == self@.len,
            n <= N,
            self.inv(),
    {
        proof {
            use_type_invariant(&self.cursor);
        }
        self.cursor.at
    }

    /// Returns the number of slots of the array. This is in contrast to
    /// [`len`](Self::len), which returns the number of elements within it.
    /// It is `N` whatever has been pushed or written.
    pub fn size(&self) -> (n: usize)
        ensures
            n == N,
            n == self@.capacity(),
    {
        N
    }

    /// The number of slots of the array, under the name by which other
    /// collections know it. The same as [`size`](Self::size).
    pub fn capacity(&self) -> (n: usize)
        ensures
            n == N,
            n == self@.capacity(),
    {
        N
    }

    /// Adds a new element to the array. The item is appended at the end.
    /// Where every slot is occupied already, an error is returned and the
    /// array stays as it was.
    ///
    /// For a more convenient method that can only be called with room left,
    /// see [`push`](Self::push).
    pub fn try_push(&mut self, elem: T) -> (res: Result<(), ArrayError>)
        ensures
            (final(self)@, res) == old(self)@.try_push(elem),
            res is Ok <==> old(self)@.len < N,
            res is Ok ==> final(self)@ == old(self)@.push(elem),
            res is Err ==> res == Err::<(), ArrayError>(ArrayError::Overflow),
            res is Err ==> final(self)@ == old(self)@,
            final(self).inv(),
    {
        proof {
            use_type_invariant(&self.cursor);
        }
        if self.cursor.at >= N {
            return Err(ArrayError::Overflow);
        }
        self.elements[self.cursor.at] = elem;
        self.cursor.at += 1;

        Ok(())
    }

    /// Adds an element to the end of the array.
    ///
    /// There has to be room for it: verified code cannot call this on a full
    /// array, and code that is not verified gets a panic if it does. For a
    /// version that reports a full array instead, see
    /// [`try_push`](Self::try_push).
    pub fn push(&mut self, elem: T)
        requires
            old(self)@.len < N,
        ensures
            final(self)@ == old(self)@.push(elem),
            final(self).inv(),
    {
        let res = self.try_push(elem);
        if res.is_err() {
            unreached::<()>();
        }
    }
}

impl<T: Default + Copy, const N: usize> vstd::std_specs::core::IndexSpecImpl<usize> for Array<T, N> {
    /// What `array[index]` asks of `index`.
    open spec fn index_req(&self, index: &usize) -> bool {
        self@.admits(*index as int)
    }
}

impl<T: Default + Copy, const N: usize> Index<usize> for Array<T, N> {
    type Output = T;

    /// Returns the element at the specified index.
    ///
    /// The index may name an occupied slot, or the first vacant one if there
    /// is one. Verified code cannot pass any other index, and code that is
    /// not verified gets a panic if it does.
    fn index(&self, index: usize) -> (out: &T)
        ensures
            *out == self@.slots[index as int],
    {
        if index > self.cursor.at {
            unreached::<()>();
        }
        &self.elements[index]
    }
}

impl<T: Default + Copy, const N: usize> IndexMut<usize> for Array<T, N> {
    /// Allows updating the values within the array: what the caller leaves
    /// behind the returned reference is what the slot then holds. No other
    /// slot changes, nor does the length.
    ///
    /// The index may name an occupied slot, or the first vacant one if there
    /// is one. Verified code cannot pass any other index, and code that is
    /// not verified gets a panic if it does.
    fn index_mut(&mut self, index: usize) -> (out: &mut T)
        requires
            old(self)@.admits(index as int),
        ensures
            *out == old(self)@.slots[index as int],
            final(self)@ == old(self)@.write(index as int, *final(out)),
            final(self).inv(),
    {
        proof {
            use_type_invariant(&self.cursor);
        }
        if index > self.cursor.at {
            unreached::<()>();
        }
        &mut self.elements[index]
    }
}

} // verus!
