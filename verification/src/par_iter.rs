//! The splittable producer and the iterator adapter.
//!
//! `ParDataIter` is the entry point: it wraps a whole array, reports its
//! exact length, and is turned into a `DataProducer` when an indexed
//! consumer asks for one.  `DataProducer` owns a view over the array and
//! supports zero-copy recursive halving (`split_at`) and ordered
//! materialization (`into_iter`).  The contracts here are exactly what a
//! fork-join scheduler needs: every split partitions the sequence, and
//! concatenating the halves in order reproduces the original.

use crate::array::PrimitiveArray;
use vstd::prelude::*;

verus! {

/// Exposes an array as a parallel-iterable source with an exact length.
pub struct ParDataIter<T> {
    arr: PrimitiveArray<T>,
}

impl<T: Copy> ParDataIter<T> {
    /// The logical sequence of optional elements the adapter iterates over.
    pub closed spec fn view(self) -> Seq<Option<T>> {
        self.arr@
    }

    /// The wrapped array's view is well formed.
    pub closed spec fn wf(self) -> bool {
        self.arr.wf()
    }

    /// Wraps an array by value; shares its buffers, copies nothing.
    pub fn new(arr: PrimitiveArray<T>) -> (r: Self)
        requires
            arr.wf(),
        ensures
            r.wf(),
            r@ == arr@,
    {
        ParDataIter { arr }
    }

    /// The exact number of items the adapter will yield, in O(1).
    pub fn len(&self) -> (r: usize)
        ensures
            r == self@.len(),
    {
        self.arr.len()
    }

    /// The exact length is always known up front, so this always answers
    /// `Some`: an indexed consumer may rely on it and never needs the
    /// unordered fallback.
    pub fn opt_len(&self) -> (r: Option<usize>)
        ensures
            r matches Some(n) && n == self@.len(),
    {
        Some(self.arr.len())
    }

    /// The sole construction point for producers: a single full-range
    /// producer over the adapter's whole view.
    pub fn with_producer(self) -> (r: DataProducer<T>)
        requires
            self.wf(),
        ensures
            r.wf(),
            r@ == self@,
    {
        DataProducer::from(self)
    }
}

/// A recursively divisible, zero-copy view over an array, convertible into
/// an ordered sequence of optional elements.
pub struct DataProducer<T> {
    arr: PrimitiveArray<T>,
}

impl<T: Copy> DataProducer<T> {
    /// The ordered sequence of optional elements this producer covers.
    pub closed spec fn view(self) -> Seq<Option<T>> {
        self.arr@
    }

    /// The owned view is well formed.
    pub closed spec fn wf(self) -> bool {
        self.arr.wf()
    }

    /// The view's logical length, in O(1).
    pub fn len(&self) -> (r: usize)
        ensures
            r == self@.len(),
    {
        self.arr.len()
    }

    /// Divides the producer at `index` into two producers over `[0, index)`
    /// and `[index, len)` of the same shared buffers: a pure metadata
    /// adjustment, no copy.  The halves partition the original sequence:
    /// their lengths sum to the original's, and their concatenation in
    /// order is exactly the original view.
    pub fn split_at(self, index: usize) -> (r: (Self, Self))
        requires
            self.wf(),
            index <= self@.len(),
        ensures
            r.0.wf(),
            r.1.wf(),
            r.0@ == self@.subrange(0, index as int),
            r.1@ == self@.subrange(index as int, self@.len() as int),
            r.0@.len() == index,
            r.0@.len() + r.1@.len() == self@.len(),
            r.0@ + r.1@ == self@,
    {
        let arr_len = self.arr.len();
        let left = self.arr.clone().sliced(0, index);
        let right = self.arr.sliced(index, arr_len - index);
        proof {
            assert(left@ + right@ =~= self@);
        }
        (DataProducer { arr: left }, DataProducer { arr: right })
    }

    /// Materializes the producer into its ordered sequence of optional
    /// elements, pairing each value with its presence flag in lockstep.
    pub fn into_iter(self) -> (r: Vec<Option<T>>)
        requires
            self.wf(),
        ensures
            r@ == self@,
    {
        self.arr.into_iter()
    }
}

impl<T: Copy> From<ParDataIter<T>> for DataProducer<T> {
    /// Takes over the adapter's view unchanged.
    fn from(iterator: ParDataIter<T>) -> (r: Self) {
        DataProducer { arr: iterator.arr }
    }
}

impl<T: Copy> vstd::std_specs::convert::FromSpecImpl<ParDataIter<T>> for DataProducer<T> {
    closed spec fn obeys_from_spec() -> bool {
        true
    }

    closed spec fn from_spec(t: ParDataIter<T>) -> Self {
        DataProducer { arr: t.arr }
    }
}

} // verus!
