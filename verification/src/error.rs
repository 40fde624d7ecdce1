//! Errors of the transport, as the middleware reads them.

use vstd::prelude::*;
use vstd::string::*;

verus! {

/// The kinds of I/O error that the middleware tells apart.
#[derive(Debug, Clone, Copy, PartialEq, Eq, Structural)]
pub enum IoErrorKind {
    /// The other side refused the connection.
    ConnectionRefused,
    /// The other side reset the connection.
    ConnectionReset,
    /// The connection was aborted.
    ConnectionAborted,
    /// The socket is not connected.
    NotConnected,
    /// The other side of the pipe is closed.
    BrokenPipe,
    /// The operation timed out.
    TimedOut,
    /// The stream ended before the message did.
    UnexpectedEof,
    /// The data is not what the protocol allows.
    InvalidData,
    /// Any other kind.
    Other,
}

impl IoErrorKind {
    /// Whether an error of this kind means no more than that the other
    /// side is gone: reset by peer, broken pipe, aborted, not connected.
    pub open spec fn is_disconnect(self) -> bool {
        self == IoErrorKind::ConnectionReset || self == IoErrorKind::BrokenPipe || self
            == IoErrorKind::ConnectionAborted || self == IoErrorKind::NotConnected
    }
}

/// An I/O error: its kind and what it says.
#[derive(Debug, PartialEq, Eq)]
pub struct IoError {
    kind: IoErrorKind,
    message: String,
}

impl IoError {
    /// The kind of the error, as a value.
    pub closed spec fn kind_spec(&self) -> IoErrorKind {
        self.kind
    }

    /// What the error says, as a value.
    pub closed spec fn text(&self) -> Seq<char> {
        self.message@
    }

    /// An error of the given kind and message.
    pub fn new(kind: IoErrorKind, message: &str) -> (error: IoError)
        ensures
            error.kind_spec() == kind,
            error.text() == message@,
    {
        IoError { kind, message: message.to_owned() }
    }

    /// The kind of the error.
    pub fn kind(&self) -> (kind: IoErrorKind)
        ensures
            kind == self.kind_spec(),
    {
        self.kind
    }

    /// What the error says.
    pub fn message(&self) -> (message: &str)
        ensures
            message@ == self.text(),
    {
        self.message.as_str()
    }

    /// What the error says, as a new string.
    pub fn to_string(&self) -> (message: String)
        ensures
            message@ == self.text(),
    {
        self.message.clone()
    }
}

/// Whether the error means no more than that the other side is gone, so
/// that the end of the connection is no fault.
pub fn is_connection_error(e: &IoError) -> (benign: bool)
    ensures
        benign == e.kind_spec().is_disconnect(),
{
    match e.kind {
        IoErrorKind::ConnectionReset => true,
        IoErrorKind::BrokenPipe => true,
        IoErrorKind::ConnectionAborted => true,
        IoErrorKind::NotConnected => true,
        _ => false,
    }
}

} // verus!
