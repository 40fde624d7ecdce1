//! Layers: wrappers of services.

use vstd::prelude::*;

verus! {

/// A layer wraps a service into another service. Wrapping does no work
/// of the service: it only builds the wrapper.
pub trait Layer<S> {
    /// The service that the layer makes.
    type Service;

    /// Wraps `inner`.
    fn layer(&self, inner: S) -> Self::Service;
}

} // verus!
