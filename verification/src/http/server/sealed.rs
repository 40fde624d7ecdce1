//! The closed set of connection servers.

use vstd::prelude::*;
use crate::http::server::hyper_conn::ServerKind;

verus! {

/// hyper's builder of HTTP/1 connections, `hyper::server::conn::http1::Builder`,
/// made known so that it can be named. Nothing is claimed of it.
#[verifier::external_type_specification]
#[verifier::external_body]
pub struct ExHttp1Builder(hyper::server::conn::http1::Builder);

/// hyper's builder of HTTP/2 connections, `hyper::server::conn::http2::Builder`,
/// made known so that it can be named. Nothing is claimed of it.
#[verifier::external_type_specification]
#[verifier::external_body]
#[verifier::reject_recursive_types(E)]
pub struct ExHttp2Builder<E>(hyper::server::conn::http2::Builder<E>);

/// hyper-util's builder of connections of either version,
/// `hyper_util::server::conn::auto::Builder`, made known so that it can be
/// named. Nothing is claimed of it.
#[verifier::external_type_specification]
#[verifier::external_body]
#[verifier::reject_recursive_types(E)]
pub struct ExAutoBuilder<E>(hyper_util::server::conn::auto::Builder<E>);

/// What only the connection servers of this library are.
pub trait Sealed {
    /// The kind of the server, as a value.
    spec fn kind_spec(&self) -> ServerKind;

    /// The kind of the server.
    fn kind(&self) -> (kind: ServerKind)
        ensures
            kind == self.kind_spec(),
    ;
}

impl Sealed for hyper::server::conn::http1::Builder {
    open spec fn kind_spec(&self) -> ServerKind {
        ServerKind::Http1
    }

    fn kind(&self) -> (kind: ServerKind) {
        ServerKind::Http1
    }
}

impl<E> Sealed for hyper::server::conn::http2::Builder<E> {
    open spec fn kind_spec(&self) -> ServerKind {
        ServerKind::Http2
    }

    fn kind(&self) -> (kind: ServerKind) {
        ServerKind::Http2
    }
}

impl<E> Sealed for hyper_util::server::conn::auto::Builder<E> {
    open spec fn kind_spec(&self) -> ServerKind {
        ServerKind::Auto
    }

    fn kind(&self) -> (kind: ServerKind) {
        ServerKind::Auto
    }
}

} // verus!
