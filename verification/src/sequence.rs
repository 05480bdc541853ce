//! The dynamic sequence container and its operations.

use vstd::prelude::*;
use vstd::slice::slice_subrange;

verus! {

/// The single error condition: an index or range bound fell outside the
/// valid bounds of the sequence at the time of the call.
#[derive(Clone, Copy, Debug, PartialEq, Eq, Structural)]
pub enum SequenceError {
    OutOfBounds,
}

/// A dynamically resizable, contiguous, ordered container of `i32`
/// values, backed by growable storage with amortized-constant append.
pub struct Sequence {
    elems: Vec<i32>,
}

/// What a bounds-checked read at `index` returns: the element stored
/// there, or `OutOfBounds` when `index` is not a valid position.
pub open spec fn get_spec(s: Seq<i32>, index: int) -> Result<i32, SequenceError> {
    if 0 <= index < s.len() {
        Ok(s[index])
    } else {
        Err(SequenceError::OutOfBounds)
    }
}

/// What viewing the half-open range `[start, end)` returns: the elements
/// of that range in order, or `OutOfBounds` when the bounds are not
/// ordered or reach past the length.
pub open spec fn slice_spec(s: Seq<i32>, start: int, end: int) -> Result<Seq<i32>, SequenceError> {
    if 0 <= start <= end <= s.len() {
        Ok(s.subrange(start, end))
    } else {
        Err(SequenceError::OutOfBounds)
    }
}

/// The sequence with `delta` added to every element.
pub open spec fn add_each(s: Seq<i32>, delta: int) -> Seq<i32> {
    Seq::new(s.len(), |i: int| (s[i] + delta) as i32)
}

impl View for Sequence {
    type V = Seq<i32>;

    closed spec fn view(&self) -> Seq<i32> {
        self.elems@
    }
}

impl Sequence {
    /// Initializes a sequence containing exactly the given elements, in
    /// the given order. A sequence built from an empty list is empty.
    pub fn create(initial: Vec<i32>) -> (s: Sequence)
        ensures
            s@ == initial@,
    {
        Sequence { elems: initial }
    }

    /// Appends `value` as the new last element: the length grows by
    /// exactly one, `value` stands at the new last position, and every
    /// previously valid index keeps its prior value.
    pub fn append(&mut self, value: i32)
        ensures
            final(self)@ == old(self)@.push(value),
            final(self)@.len() == old(self)@.len() + 1,
            final(self)@[old(self)@.len() as int] == value,
            forall|i: int| 0 <= i < old(self)@.len() ==> final(self)@[i] == old(self)@[i],
    {
        self.elems.push(value);
    }

    /// Returns the element at `index`, or `OutOfBounds` exactly when
    /// `index >= length`. Takes `&self`: the sequence is unchanged, and
    /// the result is a function of the contents and the index alone.
    pub fn get(&self, index: usize) -> (r: Result<i32, SequenceError>)
        ensures
            r == get_spec(self@, index as int),
            index < self@.len() ==> r == Ok::<i32, SequenceError>(self@[index as int]),
            r is Err <==> index >= self@.len(),
            r is Err ==> r == Err::<i32, SequenceError>(SequenceError::OutOfBounds),
    {
        if index < self.elems.len() {
            Ok(self.elems[index])
        } else {
            Err(SequenceError::OutOfBounds)
        }
    }

    /// Returns the current element count. Takes `&self`: the sequence is
    /// unchanged.
    pub fn length(&self) -> (n: usize)
        ensures
            n == self@.len(),
    {
        self.elems.len()
    }

    /// Returns the number of bytes occupied by the container's own
    /// descriptor (pointer, length and capacity metadata), not counting
    /// the separately allocated backing buffer. The result depends on
    /// the storage type alone, never on the contents.
    pub fn size_in_memory(&self) -> (n: usize)
        ensures
            n as nat == vstd::layout::size_of::<Vec<i32>>(),
    {
        core::mem::size_of::<Vec<i32>>()
    }

    /// Visits every element in index order, front to back, and returns
    /// the visited values as a new vector equal to the sequence's
    /// contents. Takes `&self`: the sequence is unchanged, so the
    /// traversal can be restarted at will.
    pub fn iterate(&self) -> (snapshot: Vec<i32>)
        ensures
            snapshot@ == self@,
    {
        let mut snapshot: Vec<i32> = Vec::new();
        let n = self.elems.len();
        let mut idx: usize = 0;
        while idx < n
            invariant
                n == self@.len(),
                idx <= n,
                snapshot@.len() == idx,
                forall|i: int| 0 <= i < idx ==> snapshot@[i] == self@[i],
            decreases n - idx,
        {
            snapshot.push(self.elems[idx]);
            idx += 1;
        }
        proof {
            assert(snapshot@ =~= self@);
        }
        snapshot
    }

    /// Writes `value` at `index` in place, or fails with `OutOfBounds`
    /// exactly when `index >= length`, leaving the sequence unchanged.
    /// This is the element mutation that a mutating traversal performs
    /// at each position it visits.
    pub fn set_at(&mut self, index: usize, value: i32) -> (r: Result<(), SequenceError>)
        ensures
            index < old(self)@.len() ==> r is Ok && final(self)@ == old(self)@.update(
                index as int,
                value,
            ),
            index >= old(self)@.len() ==> r == Err::<(), SequenceError>(SequenceError::OutOfBounds)
                && final(self)@ == old(self)@,
            final(self)@.len() == old(self)@.len(),
    {
        if index < self.elems.len() {
            self.elems[index] = value;
            Ok(())
        } else {
            Err(SequenceError::OutOfBounds)
        }
    }

    /// Visits every element in index order, front to back, and adds
    /// `delta` to it in place: the mutating traversal of the container,
    /// written as an indexed-write loop so that every write aliases the
    /// sequence's actual storage. Each write is immediately visible to
    /// subsequent reads; the length and the element order are unchanged.
    pub fn iterate_mut_add(&mut self, delta: i32)
        requires
            forall|i: int| 0 <= i < old(self)@.len() ==> i32::MIN <= #[trigger] old(self)@[i]
                + delta <= i32::MAX,
        ensures
            final(self)@.len() == old(self)@.len(),
            forall|i: int| 0 <= i < old(self)@.len() ==> final(self)@[i] == old(self)@[i] + delta,
            final(self)@ == add_each(old(self)@, delta as int),
    {
        let ghost orig = self@;
        let n = self.elems.len();
        let mut idx: usize = 0;
        while idx < n
            invariant
                n == orig.len(),
                self@.len() == orig.len(),
                idx <= n,
                forall|i: int| 0 <= i < idx ==> self@[i] == orig[i] + delta,
                forall|i: int| idx <= i < n ==> self@[i] == orig[i],
                forall|i: int| 0 <= i < orig.len() ==> i32::MIN <= #[trigger] orig[i] + delta
                    <= i32::MAX,
            decreases n - idx,
        {
            let v = self.elems[idx];
            proof {
                assert(i32::MIN <= orig[idx as int] + delta <= i32::MAX);
            }
            self.elems[idx] = v + delta;
            idx += 1;
        }
        proof {
            assert(self@ =~= add_each(orig, delta as int));
        }
    }

    /// Returns a non-owning view of the half-open range `[start, end)`,
    /// or `OutOfBounds` exactly when `start > end` or `end > length`.
    /// The empty range at `start == end == length` is valid. The view
    /// references the sequence's storage without copying it, and its
    /// `i`-th element is the sequence's element at `start + i`.
    pub fn slice(&self, start: usize, end: usize) -> (r: Result<&[i32], SequenceError>)
        ensures
            r is Ok <==> start <= end && end <= self@.len(),
            r matches Ok(v) ==> v@ == self@.subrange(start as int, end as int) && v@.len() == end
                - start,
            r matches Ok(v) ==> slice_spec(self@, start as int, end as int) == Ok::<
                Seq<i32>,
                SequenceError,
            >(v@),
            r is Err ==> r == Err::<&[i32], SequenceError>(SequenceError::OutOfBounds)
                && slice_spec(self@, start as int, end as int) == Err::<Seq<i32>, SequenceError>(
                SequenceError::OutOfBounds,
            ),
    {
        if start <= end && end <= self.elems.len() {
            Ok(slice_subrange(self.elems.as_slice(), start, end))
        } else {
            Err(SequenceError::OutOfBounds)
        }
    }
}

} // verus!
