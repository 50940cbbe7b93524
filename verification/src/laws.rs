//! What holds of the operations on an array's value, whatever the array and
//! whatever is pushed or written. The contracts of [`crate::array::Array`] say
//! what each call does to the value; these say what follows for calls in a row.

use crate::array::ArrayError;
use crate::model::ArrayView;
use vstd::prelude::*;

verus! {

/// An array with no slot occupied is empty, has length zero and has as many
/// slots as it was made with.
pub proof fn lemma_blank_is_empty<T>(capacity: nat, fill: T)
    ensures
        ArrayView::blank(capacity, fill).wf(),
        ArrayView::blank(capacity, fill).len == 0,
        ArrayView::blank(capacity, fill).is_empty(),
        ArrayView::blank(capacity, fill).capacity() == capacity,
        ArrayView::blank(capacity, fill).elements() == Seq::<T>::empty(),
        forall|i: int| 0 <= i < capacity ==> #[trigger] ArrayView::blank(capacity, fill).slots[i] == fill,
{
}

/// A push into an array with room left is accepted. Afterwards the array is
/// one element longer, the slot at the old length holds the value and may be
/// read, and the elements before it are the ones that were there.
pub proof fn lemma_push_then_read<T>(a: ArrayView<T>, value: T)
    requires
        a.wf(),
        !a.is_full(),
    ensures
        a.try_push(value) == (a.push(value), Ok::<(), ArrayError>(())),
        a.push(value).wf(),
        a.push(value).len == a.len + 1,
        a.push(value).admits(a.len as int),
        a.push(value).slots[a.len as int] == value,
        a.push(value).elements() == a.elements().push(value),
{
    assert(a.push(value).elements() =~= a.elements().push(value));
}

/// A push onto a full array is refused with an overflow, and the array is
/// what it was: the same length, the same content in every slot.
pub proof fn lemma_push_when_full<T>(a: ArrayView<T>, value: T)
    requires
        a.wf(),
        a.is_full(),
    ensures
        a.len == a.capacity(),
        a.try_push(value) == (a, Err::<(), ArrayError>(ArrayError::Overflow)),
{
}

/// A write to a slot that may be written replaces the content of that slot
/// and of no other, and leaves the length as it was. Among the elements it
/// replaces the one at that index, or none where the slot is the vacant one.
pub proof fn lemma_write_changes_one_slot<T>(a: ArrayView<T>, i: int, value: T)
    requires
        a.wf(),
        a.admits(i),
    ensures
        a.write(i, value).wf(),
        a.write(i, value).len == a.len,
        a.write(i, value).slots[i] == value,
        forall|j: int|
            0 <= j < a.capacity() && j != i ==> #[trigger] a.write(i, value).slots[j] == a.slots[j],
        forall|j: int| a.admits(j) <==> a.write(i, value).admits(j),
        i < a.len ==> a.write(i, value).elements() == a.elements().update(i, value),
        i == a.len ==> a.write(i, value).elements() == a.elements(),
{
    if i < a.len {
        assert(a.write(i, value).elements() =~= a.elements().update(i, value));
    } else {
        assert(a.write(i, value).elements() =~= a.elements());
    }
}

/// Neither a push, accepted or refused, nor a write changes the number of
/// slots.
pub proof fn lemma_capacity_is_fixed<T>(a: ArrayView<T>, i: int, value: T)
    requires
        a.wf(),
    ensures
        a.try_push(value).0.capacity() == a.capacity(),
        a.admits(i) ==> a.write(i, value).capacity() == a.capacity(),
{
}

/// No push and no write makes an array shorter: a push that is accepted makes
/// it longer by one, and everything else leaves the length alone.
pub proof fn lemma_len_never_decreases<T>(a: ArrayView<T>, i: int, value: T)
    requires
        a.wf(),
    ensures
        a.try_push(value).0.len >= a.len,
        a.try_push(value).0.len == a.len + 1 <==> a.try_push(value).1 is Ok,
        a.write(i, value).len == a.len,
{
}

/// Values that are all accepted, pushed one after the other, are appended in
/// that order: there was room for all of them, the length grows by their
/// number, and the number of slots stays.
pub proof fn lemma_accepted_run<T>(a: ArrayView<T>, values: Seq<T>)
    requires
        a.wf(),
        a.accepts_all(values),
    ensures
        a.len + values.len() <= a.capacity(),
        a.try_push_all(values).wf(),
        a.try_push_all(values).capacity() == a.capacity(),
        a.try_push_all(values).len == a.len + values.len(),
        a.try_push_all(values).elements() == a.elements() + values,
    decreases values.len(),
{
    if values.len() == 0 {
        assert(a.elements() + values =~= a.elements());
    } else {
        let front = values.drop_last();
        lemma_accepted_run(a, front);
        let b = a.try_push_all(front);
        lemma_push_then_read(b, values.last());
        assert(a.elements() + values =~= (a.elements() + front).push(values.last()));
    }
}

/// Values are all accepted exactly when there is room for all of them.
pub proof fn lemma_accepts_while_room<T>(a: ArrayView<T>, values: Seq<T>)
    requires
        a.wf(),
    ensures
        a.accepts_all(values) <==> a.len + values.len() <= a.capacity(),
    decreases values.len(),
{
    if values.len() > 0 {
        let front = values.drop_last();
        lemma_accepts_while_room(a, front);
        if a.accepts_all(front) {
            lemma_accepted_run(a, front);
        }
    }
}

/// As many accepted pushes as the array has slots fill it: its length is then
/// its capacity and its elements are the pushed values. The push after them is
/// refused with an overflow and changes neither the length nor any element.
pub proof fn lemma_fill_then_overflow<T>(a: ArrayView<T>, values: Seq<T>, extra: T)
    requires
        a.wf(),
        values.len() == a.capacity(),
        a.accepts_all(values),
    ensures
        a.is_empty(),
        a.try_push_all(values).len == a.capacity(),
        a.try_push_all(values).elements() == values,
        a.try_push_all(values).try_push(extra).1 == Err::<(), ArrayError>(ArrayError::Overflow),
        a.try_push_all(values).try_push(extra).0 == a.try_push_all(values),
        a.try_push_all(values).try_push(extra).0.len == a.capacity(),
        a.try_push_all(values).try_push(extra).0.elements() == values,
{
    lemma_accepted_run(a, values);
    assert(a.elements() + values =~= values);
}

} // verus!
