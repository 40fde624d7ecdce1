//! Application protocols, as named by a URI scheme.

use vstd::prelude::*;
use vstd::string::*;
use crate::utils::text::same_text;

verus! {

/// The protocol of a request.
#[derive(Debug, PartialEq, Eq)]
pub enum Protocol {
    /// Plain HTTP.
    HTTP,
    /// HTTP over TLS.
    HTTPS,
    /// Plain WebSocket.
    WS,
    /// WebSocket over TLS.
    WSS,
    /// Any other protocol, by the scheme that names it.
    Custom(String),
}

/// The mathematical value of a [`Protocol`].
pub enum ProtocolView {
    HTTP,
    HTTPS,
    WS,
    WSS,
    Custom(Seq<char>),
}

impl View for Protocol {
    type V = ProtocolView;

    open spec fn view(&self) -> ProtocolView {
        match self {
            Protocol::HTTP => ProtocolView::HTTP,
            Protocol::HTTPS => ProtocolView::HTTPS,
            Protocol::WS => ProtocolView::WS,
            Protocol::WSS => ProtocolView::WSS,
            Protocol::Custom(name) => ProtocolView::Custom(name@),
        }
    }
}

impl ProtocolView {
    /// The protocol that a URI scheme names. A URI without a scheme is
    /// taken to speak plain HTTP.
    pub open spec fn of_scheme(scheme: Option<Seq<char>>) -> ProtocolView {
        match scheme {
            None => ProtocolView::HTTP,
            Some(name) => if name == "http"@ {
                ProtocolView::HTTP
            } else if name == "https"@ {
                ProtocolView::HTTPS
            } else if name == "ws"@ {
                ProtocolView::WS
            } else if name == "wss"@ {
                ProtocolView::WSS
            } else {
                ProtocolView::Custom(name)
            },
        }
    }

    /// The port a server of this protocol listens on unless told otherwise.
    pub open spec fn default_port(self) -> u16 {
        match self {
            ProtocolView::HTTPS | ProtocolView::WSS => 443,
            _ => 80,
        }
    }

    /// Whether the protocol runs over TLS.
    pub open spec fn is_secure(self) -> bool {
        self is HTTPS || self is WSS
    }
}

impl Protocol {
    /// The protocol that the scheme of a URI names.
    pub fn from_scheme(scheme: Option<&str>) -> (protocol: Protocol)
        ensures
            protocol@ == ProtocolView::of_scheme(
                match scheme {
                    Some(name) => Some(name@),
                    None => None,
                },
            ),
    {
        match scheme {
            None => Protocol::HTTP,
            Some(name) => {
                if same_text(name, "http") {
                    Protocol::HTTP
                } else if same_text(name, "https") {
                    Protocol::HTTPS
                } else if same_text(name, "ws") {
                    Protocol::WS
                } else if same_text(name, "wss") {
                    Protocol::WSS
                } else {
                    Protocol::Custom(name.to_owned())
                }
            },
        }
    }

    /// The port a server of this protocol listens on unless told otherwise:
    /// 443 for the protocols over TLS, 80 for all others.
    pub fn default_port(&self) -> (port: u16)
        ensures
            port == self@.default_port(),
    {
        match self {
            Protocol::HTTPS => 443,
            Protocol::WSS => 443,
            _ => 80,
        }
    }

    /// Whether the protocol runs over TLS.
    pub fn is_secure(&self) -> (secure: bool)
        ensures
            secure == self@.is_secure(),
    {
        match self {
            Protocol::HTTPS => true,
            Protocol::WSS => true,
            _ => false,
        }
    }
}

impl Clone for Protocol {
    fn clone(&self) -> (copy: Self)
        ensures
            copy@ == self@,
    {
        match self {
            Protocol::HTTP => Protocol::HTTP,
            Protocol::HTTPS => Protocol::HTTPS,
            Protocol::WS => Protocol::WS,
            Protocol::WSS => Protocol::WSS,
            Protocol::Custom(name) => Protocol::Custom(name.clone()),
        }
    }
}

} // verus!
