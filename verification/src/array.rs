//! The array model: a shared, immutable value buffer, an optional presence
//! bitmap, and an `(offset, length)` view over both.
//!
//! Slicing only adjusts the view; the buffers themselves are shared through
//! reference counting and are never copied.

use std::sync::Arc;
use vstd::prelude::*;

verus! {

/// Relies on `alloc::sync::Arc::clone`: the clone points at the same
/// allocation, so it holds the same value as the original.
#[verifier::external_body]
fn arc_clone<T>(v: &Arc<T>) -> (res: Arc<T>)
    ensures
        res == *v,
{
    Arc::clone(v)
}

/// The lock-step zip of a dense value sequence with an optional presence
/// sequence: position `i` yields `Some(values[i])` where the flag at `i` is
/// set or no presence sequence exists, and `None` otherwise.
pub open spec fn zip_validity<T>(values: Seq<T>, validity: Option<Seq<bool>>) -> Seq<Option<T>> {
    Seq::new(
        values.len(),
        |i: int|
            match validity {
                Some(v) => if v[i] {
                    Some(values[i])
                } else {
                    None
                },
                None => Some(values[i]),
            },
    )
}

/// An immutable logical sequence of optional fixed-width values.
///
/// The logical element at position `i` is `Some(values[offset + i])` when
/// the bitmap is absent or its bit at `offset + i` is set, and `None`
/// otherwise.  Slicing shares the buffers and adjusts only `offset` and
/// `len`.
pub struct PrimitiveArray<T> {
    values: Arc<Vec<T>>,
    validity: Option<Arc<Vec<bool>>>,
    offset: usize,
    len: usize,
}

impl<T: Copy> PrimitiveArray<T> {
    /// The view lies within the value buffer, and a present bitmap covers
    /// the value buffer position for position, so every logical index maps
    /// 1:1 between the two at the same offset.
    pub closed spec fn wf(self) -> bool {
        &&& self.offset + self.len <= self.values@.len()
        &&& match self.validity {
            Some(v) => v@.len() == self.values@.len(),
            None => true,
        }
    }

    /// The logical sequence of optional elements this array denotes.
    pub closed spec fn view(self) -> Seq<Option<T>> {
        Seq::new(
            self.len as nat,
            |i: int|
                match self.validity {
                    Some(v) => if v@[self.offset + i] {
                        Some(self.values@[self.offset + i])
                    } else {
                        None
                    },
                    None => Some(self.values@[self.offset + i]),
                },
        )
    }

    /// Wraps a dense value vector and an optional presence vector into an
    /// array viewing the whole of both.
    pub fn new(values: Vec<T>, validity: Option<Vec<bool>>) -> (r: Self)
        requires
            validity matches Some(v) ==> v@.len() == values@.len(),
        ensures
            r.wf(),
            r@ == zip_validity(values@, validity.deep_view()),
            r@.len() == values@.len(),
    {
        let ghost gvalues = values@;
        let ghost gvalidity = validity.deep_view();
        let len = values.len();
        let validity = match validity {
            Some(v) => Some(Arc::new(v)),
            None => None,
        };
        let r = PrimitiveArray { values: Arc::new(values), validity, offset: 0, len };
        proof {
            assert(r@ =~= zip_validity(gvalues, gvalidity));
        }
        r
    }

    /// The logical length of the view, in O(1).
    pub fn len(&self) -> (r: usize)
        ensures
            r == self@.len(),
    {
        self.len
    }

    /// Zero-copy slice: shares the buffers and narrows the view to
    /// `[offset, offset + length)` of this array's logical range.
    pub fn sliced(self, offset: usize, length: usize) -> (r: Self)
        requires
            self.wf(),
            offset + length <= self@.len(),
        ensures
            r.wf(),
            r@ == self@.subrange(offset as int, offset + length),
    {
        let buf_len: usize = self.values.len();
        assert(self.offset + offset <= buf_len);
        let r = PrimitiveArray {
            values: self.values,
            validity: self.validity,
            offset: self.offset + offset,
            len: length,
        };
        proof {
            assert(r@ =~= self@.subrange(offset as int, offset + length));
        }
        r
    }

    /// Materializes the view into an ordered vector of optional elements:
    /// the dense values zipped in lockstep with the presence flags (or with
    /// an implicit all-true sequence when no bitmap is present).
    pub fn into_iter(self) -> (r: Vec<Option<T>>)
        requires
            self.wf(),
        ensures
            r@ == self@,
    {
        let buf_len: usize = self.values.len();
        let mut out: Vec<Option<T>> = Vec::new();
        let mut i: usize = 0;
        while i < self.len
            invariant
                self.wf(),
                self.offset + self.len <= buf_len,
                0 <= i <= self.len,
                self.len == self@.len(),
                out@.len() == i,
                forall|j: int| 0 <= j < i ==> out@[j] == self@[j],
            decreases self.len - i,
        {
            let pos = self.offset + i;
            let val = (*self.values)[pos];
            let item = match &self.validity {
                Some(v) => if (**v)[pos] {
                    Some(val)
                } else {
                    None
                },
                None => Some(val),
            };
            out.push(item);
            i = i + 1;
        }
        proof {
            assert(out@ =~= self@);
        }
        out
    }
}

impl<T: Copy> Clone for PrimitiveArray<T> {
    /// A shallow clone: the buffers are shared, only the view record is new.
    fn clone(&self) -> (r: Self)
        ensures
            r == *self,
    {
        PrimitiveArray {
            values: arc_clone(&self.values),
            validity: match &self.validity {
                Some(v) => Some(arc_clone(v)),
                None => None,
            },
            offset: self.offset,
            len: self.len,
        }
    }
}

} // verus!
