//! The arithmetic of counting bytes.

use vstd::prelude::*;

verus! {

/// The number of bytes that a read put into a buffer that was filled up
/// to `filled_before` and is now filled up to `filled_after`.
pub open spec fn gained(filled_before: usize, filled_after: usize) -> usize {
    (filled_after - filled_before) as usize
}

/// The count after `bytes` more bytes. A count that passes the largest
/// number starts again at zero, as the shared counters do.
pub open spec fn counted(total: usize, bytes: usize) -> usize {
    total.wrapping_add(bytes)
}

} // verus!
