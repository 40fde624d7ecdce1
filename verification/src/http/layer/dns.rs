//! The layer that lets a request say, in a header, how names are to be
//! resolved for it.

use vstd::prelude::*;
use crate::http::request::HeaderName;
use crate::service::layer::Layer;

verus! {

/// A service that reads the resolve mode of a request from a header and
/// then hands the request to its inner service.
#[derive(Debug)]
pub struct DnsResolveModeService<S> {
    inner: S,
    header_name: HeaderName,
}

impl<S> DnsResolveModeService<S> {
    /// The inner service, as a value.
    pub closed spec fn inner_spec(&self) -> S {
        self.inner
    }

    /// The name of the header, as a value.
    pub closed spec fn header(&self) -> Seq<char> {
        self.header_name@
    }

    /// A service around `inner` that reads the header `header_name`.
    pub fn new(inner: S, header_name: HeaderName) -> (service: Self)
        ensures
            service.inner_spec() == inner,
            service.header() == header_name@,
    {
        Self { inner, header_name }
    }

    /// The name of the header that the service reads.
    pub fn header_name(&self) -> (name: &HeaderName)
        ensures
            name@ == self.header(),
    {
        &self.header_name
    }

    /// The inner service.
    pub fn get_ref(&self) -> (inner: &S)
        ensures
            *inner == self.inner_spec(),
    {
        &self.inner
    }

    /// The inner service, without the wrapper.
    pub fn into_inner(self) -> (inner: S)
        ensures
            inner == self.inner_spec(),
    {
        self.inner
    }
}

/// The layer that makes a [`DnsResolveModeService`].
#[derive(Debug)]
pub struct DnsResolveModeLayer {
    header_name: HeaderName,
}

impl DnsResolveModeLayer {
    /// The name of the header, as a value.
    pub closed spec fn header(&self) -> Seq<char> {
        self.header_name@
    }

    /// A layer whose services read the header `name`.
    pub fn new(name: HeaderName) -> (layer: Self)
        ensures
            layer.header() == name@,
    {
        Self { header_name: name }
    }
}

impl Clone for DnsResolveModeLayer {
    fn clone(&self) -> (copy: Self)
        ensures
            copy.header() == self.header(),
    {
        Self { header_name: self.header_name.clone() }
    }
}

impl<S> Layer<S> for DnsResolveModeLayer {
    type Service = DnsResolveModeService<S>;

    /// Wraps `inner` into a service that reads the layer's header.
    fn layer(&self, inner: S) -> (service: DnsResolveModeService<S>)
        ensures
            service.inner_spec() == inner,
            service.header() == self.header(),
    {
        DnsResolveModeService::new(inner, self.header_name.clone())
    }
}

} // verus!
