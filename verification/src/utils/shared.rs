//! Sharing of values behind reference counts.

use vstd::prelude::*;
use std::sync::Arc;

verus! {

/// Another handle on the value that `a` points to, made by `Arc::clone`.
/// The contract claims that the new handle points to the same value:
/// the value itself is not copied.
#[verifier::external_body]
pub(crate) fn share<T>(a: &Arc<T>) -> (handle: Arc<T>)
    ensures
        handle == *a,
{
    Arc::clone(a)
}

} // verus!
