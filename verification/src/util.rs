//! Small helpers shared across the crate.

use vstd::prelude::*;

verus! {

/// Whether a slice holds no elements.
pub fn is_empty_slice<T: Clone>(slice: &[T]) -> (r: bool)
    ensures
        r == (slice@.len() == 0),
{
    slice.len() == 0
}

} // verus!
