//! The laws of the sequence container, stated over the views and spec
//! functions that the operations' contracts use.

use vstd::prelude::*;
use crate::sequence::{add_each, get_spec, slice_spec, SequenceError};

verus! {

/// Appending a value increases the length by exactly one, stores the
/// value at the new last position, and leaves every previously valid
/// index with its prior value, in the same order.
pub proof fn lemma_append_extends(before: Seq<i32>, value: i32)
    ensures
        before.push(value).len() == before.len() + 1,
        before.push(value)[before.len() as int] == value,
        forall|i: int| 0 <= i < before.len() ==> before.push(value)[i] == before[i],
{
}

/// A valid slice yields a view whose length is `end - start` and whose
/// `i`-th element (0-indexed within the view) equals the element that a
/// read of the sequence returns at `start + i`.
pub proof fn lemma_slice_agrees_with_get(s: Seq<i32>, start: int, end: int)
    requires
        0 <= start <= end <= s.len(),
    ensures
        slice_spec(s, start, end) matches Ok(sub) && sub.len() == end - start && (forall|i: int|
            0 <= i < end - start ==> get_spec(s, start + i) == Ok::<i32, SequenceError>(sub[i])),
{
}

/// Reads and slices fail exactly on out-of-bounds arguments, and always
/// with `OutOfBounds`: a read fails if and only if the index is at or
/// past the length, and a slice fails if and only if its bounds are not
/// ordered or reach past the length. Neither ever fails on in-bounds
/// arguments.
pub proof fn lemma_out_of_bounds_exact(s: Seq<i32>, index: int, start: int, end: int)
    requires
        0 <= index,
        0 <= start,
        0 <= end,
    ensures
        get_spec(s, index) is Err <==> index >= s.len(),
        get_spec(s, index) is Err ==> get_spec(s, index) == Err::<i32, SequenceError>(
            SequenceError::OutOfBounds,
        ),
        slice_spec(s, start, end) is Err <==> (start > end || end > s.len()),
        slice_spec(s, start, end) is Err ==> slice_spec(s, start, end) == Err::<
            Seq<i32>,
            SequenceError,
        >(SequenceError::OutOfBounds),
{
}

/// Mutating iteration law: after a traversal adds one to every element,
/// a subsequent read-only traversal yields exactly the original values
/// each incremented by one, in the same order. `after` is the sequence's
/// contents once the mutating traversal has visited every element, and
/// `snapshot` is what the read-only traversal then returns.
pub proof fn lemma_mutating_iteration(before: Seq<i32>, after: Seq<i32>, snapshot: Seq<i32>)
    requires
        after.len() == before.len(),
        forall|i: int| 0 <= i < before.len() ==> after[i] == before[i] + 1,
        snapshot == after,
    ensures
        snapshot == add_each(before, 1),
        snapshot.len() == before.len(),
        forall|i: int| 0 <= i < before.len() ==> snapshot[i] == before[i] + 1,
{
    assert(snapshot =~= add_each(before, 1));
}

} // verus!
