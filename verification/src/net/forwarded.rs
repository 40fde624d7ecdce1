//! What a proxy in front of the server said of the client's request.

use vstd::prelude::*;
use crate::net::address::Host;
use crate::net::protocol::{Protocol, ProtocolView};

verus! {

/// The HTTP version that a proxy saw the client speak.
#[allow(non_camel_case_types)]
#[derive(Debug, Clone, Copy, PartialEq, Eq, Structural)]
pub enum ForwardedVersion {
    HTTP_09,
    HTTP_10,
    HTTP_11,
    HTTP_2,
    HTTP_3,
}

/// The protocol that a proxy saw the client speak.
#[derive(Debug, Clone, Copy, PartialEq, Eq, Structural)]
pub enum ForwardedProtocol {
    HTTP,
    HTTPS,
}

impl ForwardedProtocol {
    /// The protocol, in the vocabulary of requests.
    pub open spec fn protocol(self) -> ProtocolView {
        match self {
            ForwardedProtocol::HTTP => ProtocolView::HTTP,
            ForwardedProtocol::HTTPS => ProtocolView::HTTPS,
        }
    }

    /// The protocol, in the vocabulary of requests.
    pub fn to_protocol(self) -> (protocol: Protocol)
        ensures
            protocol@ == self.protocol(),
    {
        match self {
            ForwardedProtocol::HTTP => Protocol::HTTP,
            ForwardedProtocol::HTTPS => Protocol::HTTPS,
        }
    }
}

/// The host that the client asked for, with the port if it named one.
#[derive(Debug, PartialEq, Eq)]
pub struct ForwardedAuthority {
    host: Host,
    port: Option<u16>,
}

/// The mathematical value of a [`ForwardedAuthority`].
pub struct ForwardedAuthorityView {
    pub host: Seq<char>,
    pub port: Option<u16>,
}

impl View for ForwardedAuthority {
    type V = ForwardedAuthorityView;

    closed spec fn view(&self) -> ForwardedAuthorityView {
        ForwardedAuthorityView { host: self.host@, port: self.port }
    }
}

impl ForwardedAuthority {
    /// A forwarded authority of the given host and, maybe, port.
    pub fn new(host: Host, port: Option<u16>) -> (authority: ForwardedAuthority)
        ensures
            authority@ == (ForwardedAuthorityView { host: host@, port }),
    {
        ForwardedAuthority { host, port }
    }

    /// The host.
    pub fn host(&self) -> (host: &Host)
        ensures
            host@ == self@.host,
    {
        &self.host
    }

    /// The port, if the client named one.
    pub fn port(&self) -> (port: Option<u16>)
        ensures
            port == self@.port,
    {
        self.port
    }

    /// The host and the port, apart.
    pub fn into_parts(self) -> (parts: (Host, Option<u16>))
        ensures
            parts.0@ == self@.host,
            parts.1 == self@.port,
    {
        (self.host, self.port)
    }
}

impl Clone for ForwardedAuthority {
    fn clone(&self) -> (copy: Self)
        ensures
            copy@ == self@,
    {
        ForwardedAuthority { host: self.host.clone(), port: self.port }
    }
}

/// What the proxy nearest to the client reported of the client's request.
/// Each part is there only if the proxy reported it.
#[derive(Debug, PartialEq, Eq)]
pub struct Forwarded {
    host: Option<ForwardedAuthority>,
    port: Option<u16>,
    proto: Option<ForwardedProtocol>,
    version: Option<ForwardedVersion>,
}

/// The mathematical value of a [`Forwarded`].
pub struct ForwardedView {
    pub host: Option<ForwardedAuthorityView>,
    pub port: Option<u16>,
    pub proto: Option<ForwardedProtocol>,
    pub version: Option<ForwardedVersion>,
}

impl View for Forwarded {
    type V = ForwardedView;

    closed spec fn view(&self) -> ForwardedView {
        ForwardedView {
            host: match self.host {
                Some(h) => Some(h@),
                None => None,
            },
            port: self.port,
            proto: self.proto,
            version: self.version,
        }
    }
}

impl Forwarded {
    /// A report of the given parts.
    pub fn new(
        host: Option<ForwardedAuthority>,
        port: Option<u16>,
        proto: Option<ForwardedProtocol>,
        version: Option<ForwardedVersion>,
    ) -> (forwarded: Forwarded)
        ensures
            forwarded@ == (ForwardedView {
                host: match host {
                    Some(h) => Some(h@),
                    None => None,
                },
                port,
                proto,
                version,
            }),
    {
        Forwarded { host, port, proto, version }
    }

    /// The host that the client asked for.
    pub fn client_host(&self) -> (host: Option<&ForwardedAuthority>)
        ensures
            match host {
                Some(h) => self@.host == Some(h@),
                None => self@.host is None,
            },
    {
        self.host.as_ref()
    }

    /// The port from which the client connected.
    pub fn client_port(&self) -> (port: Option<u16>)
        ensures
            port == self@.port,
    {
        self.port
    }

    /// The protocol that the client spoke.
    pub fn client_proto(&self) -> (proto: Option<ForwardedProtocol>)
        ensures
            proto == self@.proto,
    {
        self.proto
    }

    /// The HTTP version that the client spoke.
    pub fn client_version(&self) -> (version: Option<ForwardedVersion>)
        ensures
            version == self@.version,
    {
        self.version
    }
}

impl Clone for Forwarded {
    fn clone(&self) -> (copy: Self)
        ensures
            copy@ == self@,
    {
        let host = match &self.host {
            Some(h) => Some(h.clone()),
            None => None,
        };
        Forwarded { host, port: self.port, proto: self.proto, version: self.version }
    }
}

} // verus!
