//! A splittable, zero-copy parallel-iteration adapter for columnar,
//! nullable arrays of fixed-width elements.
//!
//! The library models an immutable array as a shared value buffer together
//! with an optional presence bitmap and an `(offset, length)` view.  A
//! producer over such a view can be split recursively without copying, and
//! each leaf can be materialized into an ordered sequence of optional
//! elements.  The splitting and re-sequencing contracts that a fork-join
//! scheduler relies on are stated and proved here.

pub mod array;
pub mod laws;
pub mod par_iter;
