//! What is known of the request being served: its version, its protocol
//! and the authority it is addressed to.

use vstd::prelude::*;
use vstd::std_specs::convert::FromSpecImpl;
use crate::context::context::Context;
use crate::context::extensions::{forwarded_in, request_context_in, Fact, FactKind, FactView};
use crate::http::request::{Parts, PartsView, Request, Version};
use crate::net::address::{authority_of, is_host, Authority, AuthorityView, Host};
use crate::net::forwarded::{Forwarded, ForwardedVersion, ForwardedView};
use crate::net::protocol::{Protocol, ProtocolView};

verus! {

/// The context of the request being served.
#[derive(Debug, PartialEq, Eq)]
pub struct RequestContext {
    /// The HTTP version.
    pub http_version: Version,
    /// The protocol of the request.
    pub protocol: Protocol,
    /// The authority that the request is addressed to, where one is known.
    pub authority: Option<Authority>,
}

/// The mathematical value of a [`RequestContext`].
pub struct RequestContextView {
    pub http_version: Version,
    pub protocol: ProtocolView,
    pub authority: Option<AuthorityView>,
}

impl View for RequestContext {
    type V = RequestContextView;

    open spec fn view(&self) -> RequestContextView {
        RequestContextView {
            http_version: self.http_version,
            protocol: self.protocol@,
            authority: match self.authority {
                Some(a) => Some(a@),
                None => None,
            },
        }
    }
}

/// The version of requests that a forwarded version stands for.
pub open spec fn version_of(version: ForwardedVersion) -> Version {
    match version {
        ForwardedVersion::HTTP_09 => Version::HTTP_09,
        ForwardedVersion::HTTP_10 => Version::HTTP_10,
        ForwardedVersion::HTTP_11 => Version::HTTP_11,
        ForwardedVersion::HTTP_2 => Version::HTTP_2,
        ForwardedVersion::HTTP_3 => Version::HTTP_3,
    }
}

/// The protocol of a request: what the proxy reported, else what the
/// scheme of the URI names.
pub open spec fn protocol_of(forwarded: Option<ForwardedView>, parts: PartsView) -> ProtocolView {
    match forwarded {
        Some(ForwardedView { proto: Some(proto), .. }) => proto.protocol(),
        _ => ProtocolView::of_scheme(parts.uri.scheme),
    }
}

/// The port that an authority without a port is given: the port that the
/// proxy reported, else the port of the URI, else the default port of the
/// protocol.
pub open spec fn default_port_of(forwarded: Option<ForwardedView>, parts: PartsView) -> u16 {
    match forwarded {
        Some(ForwardedView { port: Some(port), .. }) => port,
        _ => match parts.uri.port {
            Some(port) => port,
            None => protocol_of(forwarded, parts).default_port(),
        },
    }
}

/// The authority that `text` names: the authority it writes, or else the
/// host it writes with the port `port`; none where it writes neither.
pub open spec fn authority_in(text: Seq<char>, port: u16) -> Option<AuthorityView> {
    match authority_of(text) {
        Some(authority) => Some(authority),
        None => if is_host(text) {
            Some(AuthorityView { host: text, port })
        } else {
            None
        },
    }
}

/// The host of the URI with the port `port`, where the URI has a host.
pub open spec fn authority_of_uri(parts: PartsView, port: u16) -> Option<AuthorityView> {
    match parts.uri.host {
        Some(host) => if is_host(host) {
            Some(AuthorityView { host, port })
        } else {
            None
        },
        None => None,
    }
}

/// The authority of a request. The first of these that yields one counts:
/// the host that the proxy reported, the `Host` header, the URI.
pub open spec fn request_authority_of(forwarded: Option<ForwardedView>, parts: PartsView) -> Option<
    AuthorityView,
> {
    let port = default_port_of(forwarded, parts);
    match forwarded {
        Some(ForwardedView { host: Some(host), .. }) => Some(
            AuthorityView {
                host: host.host,
                port: match host.port {
                    Some(p) => p,
                    None => port,
                },
            },
        ),
        _ => match parts.host {
            Some(header) => match authority_in(header, port) {
                Some(authority) => Some(authority),
                None => authority_of_uri(parts, port),
            },
            None => authority_of_uri(parts, port),
        },
    }
}

/// The version of a request: what the proxy reported, else the version
/// that the request is written in.
pub open spec fn http_version_of(forwarded: Option<ForwardedView>, parts: PartsView) -> Version {
    match forwarded {
        Some(ForwardedView { version: Some(version), .. }) => version_of(version),
        _ => parts.version,
    }
}

/// The context of a request with the head `parts`, served where a proxy
/// reported `forwarded`.
pub open spec fn request_context_of(
    forwarded: Option<ForwardedView>,
    parts: PartsView,
) -> RequestContextView {
    RequestContextView {
        http_version: http_version_of(forwarded, parts),
        protocol: protocol_of(forwarded, parts),
        authority: request_authority_of(forwarded, parts),
    }
}

/// The version of requests that a forwarded version stands for.
pub fn forwarded_version(version: ForwardedVersion) -> (v: Version)
    ensures
        v == version_of(version),
{
    match version {
        ForwardedVersion::HTTP_09 => Version::HTTP_09,
        ForwardedVersion::HTTP_10 => Version::HTTP_10,
        ForwardedVersion::HTTP_11 => Version::HTTP_11,
        ForwardedVersion::HTTP_2 => Version::HTTP_2,
        ForwardedVersion::HTTP_3 => Version::HTTP_3,
    }
}

/// The host of the URI with the port `port`, where the URI has a host.
fn uri_authority(parts: &Parts, port: u16) -> (authority: Option<Authority>)
    ensures
        match authority {
            Some(a) => authority_of_uri(parts@, port) == Some(a@),
            None => authority_of_uri(parts@, port) is None,
        },
{
    match parts.uri.host() {
        Some(text) => match Host::parse(text) {
            Ok(host) => Some(Authority::new(host, port)),
            Err(_) => None,
        },
        None => None,
    }
}

/// The authority that `text` names, with the port `port` where it names
/// none.
fn text_authority(text: &str, port: u16) -> (authority: Option<Authority>)
    ensures
        match authority {
            Some(a) => authority_in(text@, port) == Some(a@),
            None => authority_in(text@, port) is None,
        },
{
    match Authority::parse(text) {
        Ok(authority) => Some(authority),
        Err(_) => match Host::parse(text) {
            Ok(host) => Some(Authority::new(host, port)),
            Err(_) => None,
        },
    }
}

impl RequestContext {
    /// The context of the request `req`, served in the context `ctx`.
    pub fn new<State, Body>(ctx: &Context<State>, req: &Request<Body>) -> (context: RequestContext)
        ensures
            context@ == request_context_of(forwarded_in(ctx.facts()), req.head()),
    {
        RequestContext::from_parts(ctx, req.parts())
    }

    /// The context of a request with the head `parts`, served in the
    /// context `ctx`. What a proxy reported of the client counts before
    /// what the request itself says.
    pub fn from_parts<State>(ctx: &Context<State>, parts: &Parts) -> (context: RequestContext)
        ensures
            context@ == request_context_of(forwarded_in(ctx.facts()), parts@),
    {
        let forwarded: Option<&Forwarded> = ctx.extensions().forwarded();

        let reported_proto = match forwarded {
            Some(f) => f.client_proto(),
            None => None,
        };
        let protocol = match reported_proto {
            Some(proto) => proto.to_protocol(),
            None => Protocol::from_scheme(parts.uri.scheme_str()),
        };

        let reported_port = match forwarded {
            Some(f) => f.client_port(),
            None => None,
        };
        let default_port = match reported_port {
            Some(port) => port,
            None => match parts.uri.port_u16() {
                Some(port) => port,
                None => protocol.default_port(),
            },
        };

        let reported_host = match forwarded {
            Some(f) => f.client_host(),
            None => None,
        };
        let authority = match reported_host {
            Some(reported) => {
                let (host, port) = reported.clone().into_parts();
                let port = match port {
                    Some(p) => p,
                    None => default_port,
                };
                Some(Authority::new(host, port))
            },
            None => {
                let named = match &parts.host {
                    Some(header) => text_authority(header.as_str(), default_port),
                    None => None,
                };
                match named {
                    Some(authority) => Some(authority),
                    None => uri_authority(parts, default_port),
                }
            },
        };

        let reported_version = match forwarded {
            Some(f) => f.client_version(),
            None => None,
        };
        let http_version = match reported_version {
            Some(version) => forwarded_version(version),
            None => parts.version,
        };

        RequestContext { http_version, protocol, authority }
    }
}

/// The context of the request `req`: the one that `ctx` holds already,
/// else the one that [`RequestContext::new`] makes, which is then put
/// into `ctx` for those who ask later.
pub fn get_request_context<State, Body>(ctx: &mut Context<State>, req: &Request<Body>) -> (context:
    RequestContext)
    ensures
        final(ctx).state_spec() == old(ctx).state_spec(),
        final(ctx).guard_spec() == old(ctx).guard_spec(),
        match request_context_in(old(ctx).facts()) {
            Some(held) => context@ == held && final(ctx).facts() == old(ctx).facts(),
            None => {
                &&& context@ == request_context_of(forwarded_in(old(ctx).facts()), req.head())
                &&& final(ctx).facts() == old(ctx).facts().insert(
                    FactKind::RequestContext,
                    FactView::RequestContext(context@),
                )
            },
        },
{
    let held = match ctx.extensions().request_context() {
        Some(context) => Some(context.clone()),
        None => None,
    };
    match held {
        Some(context) => context,
        None => {
            let context = RequestContext::new(ctx, req);
            ctx.insert(Fact::RequestContext(context.clone()));
            context
        },
    }
}

impl<'a, State, Body> From<(&'a Context<State>, &'a Request<Body>)> for RequestContext {
    fn from(pair: (&'a Context<State>, &'a Request<Body>)) -> (context: RequestContext)
        ensures
            context@ == request_context_of(forwarded_in(pair.0.facts()), pair.1.head()),
    {
        RequestContext::from_parts(pair.0, pair.1.parts())
    }
}

impl<'a, State, Body> FromSpecImpl<(&'a Context<State>, &'a Request<Body>)> for RequestContext {
    open spec fn obeys_from_spec() -> bool {
        false
    }

    open spec fn from_spec(pair: (&'a Context<State>, &'a Request<Body>)) -> RequestContext {
        arbitrary()
    }
}

impl<'a, State> From<(&'a Context<State>, &'a Parts)> for RequestContext {
    fn from(pair: (&'a Context<State>, &'a Parts)) -> (context: RequestContext)
        ensures
            context@ == request_context_of(forwarded_in(pair.0.facts()), pair.1@),
    {
        RequestContext::from_parts(pair.0, pair.1)
    }
}

impl<'a, State> FromSpecImpl<(&'a Context<State>, &'a Parts)> for RequestContext {
    open spec fn obeys_from_spec() -> bool {
        false
    }

    open spec fn from_spec(pair: (&'a Context<State>, &'a Parts)) -> RequestContext {
        arbitrary()
    }
}

impl<State, Body> From<(Context<State>, Request<Body>)> for RequestContext {
    fn from(pair: (Context<State>, Request<Body>)) -> (context: RequestContext)
        ensures
            context@ == request_context_of(forwarded_in(pair.0.facts()), pair.1.head()),
    {
        RequestContext::from_parts(&pair.0, pair.1.parts())
    }
}

impl<State, Body> FromSpecImpl<(Context<State>, Request<Body>)> for RequestContext {
    open spec fn obeys_from_spec() -> bool {
        false
    }

    open spec fn from_spec(pair: (Context<State>, Request<Body>)) -> RequestContext {
        arbitrary()
    }
}

impl<State> From<(Context<State>, Parts)> for RequestContext {
    fn from(pair: (Context<State>, Parts)) -> (context: RequestContext)
        ensures
            context@ == request_context_of(forwarded_in(pair.0.facts()), pair.1@),
    {
        RequestContext::from_parts(&pair.0, &pair.1)
    }
}

impl<State> FromSpecImpl<(Context<State>, Parts)> for RequestContext {
    open spec fn obeys_from_spec() -> bool {
        false
    }

    open spec fn from_spec(pair: (Context<State>, Parts)) -> RequestContext {
        arbitrary()
    }
}

impl Clone for RequestContext {
    fn clone(&self) -> (copy: Self)
        ensures
            copy@ == self@,
    {
        let authority = match &self.authority {
            Some(a) => Some(a.clone()),
            None => None,
        };
        RequestContext {
            http_version: self.http_version,
            protocol: self.protocol.clone(),
            authority,
        }
    }
}

} // verus!
