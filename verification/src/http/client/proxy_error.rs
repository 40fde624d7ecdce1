//! Why a connection through an HTTP proxy could not be established.

use vstd::prelude::*;
use vstd::string::*;
use vstd::std_specs::convert::FromSpecImpl;
use crate::error::IoError;

verus! {

/// The error of an HTTP proxy that did not establish a connection.
#[derive(Debug)]
pub enum HttpProxyError {
    /// The proxy asks for authentication (it answered with status 407).
    AuthRequired,
    /// The proxy is unavailable (it answered with status 503).
    Unavailable,
    /// An I/O error happened while the connection was being established.
    Transport(IoError),
    /// Something else went wrong. The first line of the proxy's answer is
    /// kept.
    Other(String),
}

impl HttpProxyError {
    /// What the error says.
    pub open spec fn text(self) -> Seq<char> {
        match self {
            HttpProxyError::AuthRequired => "http proxy error: proxy auth required (http 407)"@,
            HttpProxyError::Unavailable => "http proxy error: proxy unavailable (http 503)"@,
            HttpProxyError::Transport(error) => "http proxy error: transport error: I/O ["@ + error.text()
                + "]"@,
            HttpProxyError::Other(header) => "http proxy error: first line of header = ["@ + header@
                + "]"@,
        }
    }

    /// The error behind this one, as a value.
    pub open spec fn cause(self) -> Option<IoError> {
        match self {
            HttpProxyError::Transport(error) => Some(error),
            _ => None,
        }
    }

    /// What the error says.
    pub fn to_string(&self) -> (message: String)
        ensures
            message@ == self.text(),
    {
        match self {
            HttpProxyError::AuthRequired => String::from_str(
                "http proxy error: proxy auth required (http 407)",
            ),
            HttpProxyError::Unavailable => String::from_str(
                "http proxy error: proxy unavailable (http 503)",
            ),
            HttpProxyError::Transport(error) => {
                let mut message = String::from_str("http proxy error: transport error: I/O [");
                message.append(error.message());
                message.append("]");
                message
            },
            HttpProxyError::Other(header) => {
                let mut message = String::from_str("http proxy error: first line of header = [");
                message.append(header.as_str());
                message.append("]");
                message
            },
        }
    }

    /// The error behind this one: the I/O error of a transport error,
    /// nothing for the others.
    pub fn source(&self) -> (cause: Option<&IoError>)
        ensures
            match cause {
                Some(error) => self.cause() == Some(*error),
                None => self.cause() is None,
            },
    {
        match self {
            HttpProxyError::AuthRequired => None,
            HttpProxyError::Unavailable => None,
            HttpProxyError::Transport(error) => Some(error),
            HttpProxyError::Other(_) => None,
        }
    }
}

impl From<IoError> for HttpProxyError {
    /// An I/O error is a transport error.
    fn from(value: IoError) -> (error: HttpProxyError)
        ensures
            error == HttpProxyError::Transport(value),
    {
        HttpProxyError::Transport(value)
    }
}

impl FromSpecImpl<IoError> for HttpProxyError {
    open spec fn obeys_from_spec() -> bool {
        true
    }

    open spec fn from_spec(value: IoError) -> HttpProxyError {
        HttpProxyError::Transport(value)
    }
}

} // verus!
