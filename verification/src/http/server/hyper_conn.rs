//! Driving one connection to its end, under a guard that may ask for
//! shutdown, and telling an orderly end from a failure.

use vstd::prelude::*;
use vstd::string::*;
use crate::error::{is_connection_error, IoError};
use crate::http::server::sealed::Sealed;

verus! {

/// What the HTTP/2 layer says of an error of its own.
#[derive(Debug, Clone, Copy, PartialEq, Eq, Structural)]
pub struct H2Error {
    /// The other side said that it takes no new streams.
    pub go_away: bool,
    /// The error came from the transport below.
    pub io: bool,
}

/// What lies behind an error of the HTTP layer.
#[derive(Debug, PartialEq, Eq)]
pub enum HyperCause {
    /// Nothing.
    Nothing,
    /// An error of the HTTP/2 layer.
    H2(H2Error),
    /// An error of the transport.
    Io(IoError),
    /// Something else.
    Other,
}

/// An error of the HTTP layer.
#[derive(Debug, PartialEq, Eq)]
pub struct HyperError {
    /// The work was cancelled, as it is when this side shuts down.
    pub canceled: bool,
    /// The channel to the connection was closed.
    pub closed: bool,
    /// What lies behind the error.
    pub cause: HyperCause,
    /// What the error says.
    pub message: String,
}

/// An error with which serving a connection ended.
#[derive(Debug, PartialEq, Eq)]
pub enum ServeError {
    /// An error of the HTTP layer.
    Hyper(HyperError),
    /// An error of the transport.
    Io(IoError),
    /// Any other error, by what it says.
    Other(String),
}

/// How serving a connection ended.
pub type HttpServeResult = Result<(), ServeError>;

/// Whether an error of the HTTP layer is an orderly end: this side
/// cancelled or closed, the other side said go-away, or the transport
/// below was disconnected.
pub open spec fn is_benign_hyper(err: HyperError) -> bool {
    err.canceled || err.closed || match err.cause {
        HyperCause::H2(h2) => h2.go_away || h2.io,
        HyperCause::Io(io) => io.kind_spec().is_disconnect(),
        _ => false,
    }
}

/// Whether an error is an orderly end.
pub open spec fn is_benign(err: ServeError) -> bool {
    match err {
        ServeError::Hyper(e) => is_benign_hyper(e),
        ServeError::Io(e) => e.kind_spec().is_disconnect(),
        ServeError::Other(_) => false,
    }
}

/// What the driver makes of the end of a connection: an orderly end is
/// success, every other error is handed on as it is.
pub open spec fn classified(result: HttpServeResult) -> HttpServeResult {
    match result {
        Ok(_) => Ok(()),
        Err(e) => if is_benign(e) {
            Ok(())
        } else {
            Err(e)
        },
    }
}

/// Maps an error of the HTTP layer: success where the error is an orderly
/// end, else the error itself.
pub fn map_hyper_err_to_result(err: HyperError) -> (result: HttpServeResult)
    ensures
        result == classified(Err(ServeError::Hyper(err))),
{
    if err.canceled || err.closed {
        return Ok(());
    }
    match &err.cause {
        HyperCause::H2(h2) => {
            if h2.go_away || h2.io {
                return Ok(());
            }
        },
        HyperCause::Io(io) => {
            if is_connection_error(io) {
                return Ok(());
            }
        },
        _ => {},
    }
    Err(ServeError::Hyper(err))
}

/// Maps the end of a connection that fails with errors of the HTTP layer
/// only.
pub fn map_hyper_result(result: Result<(), HyperError>) -> (mapped: HttpServeResult)
    ensures
        mapped == classified(
            match result {
                Ok(_) => Ok(()),
                Err(e) => Err(ServeError::Hyper(e)),
            },
        ),
{
    match result {
        Ok(_) => Ok(()),
        Err(err) => map_hyper_err_to_result(err),
    }
}

/// Maps the end of a connection that may fail with any error.
pub fn map_boxed_hyper_result(result: HttpServeResult) -> (mapped: HttpServeResult)
    ensures
        mapped == classified(result),
{
    match result {
        Ok(_) => Ok(()),
        Err(err) => match err {
            ServeError::Hyper(err) => map_hyper_err_to_result(err),
            ServeError::Io(err) => {
                if is_connection_error(&err) {
                    Ok(())
                } else {
                    Err(ServeError::Io(err))
                }
            },
            ServeError::Other(message) => Err(ServeError::Other(message)),
        },
    }
}

/// The kinds of connection server.
#[derive(Debug, Clone, Copy, PartialEq, Eq, Structural)]
pub enum ServerKind {
    /// HTTP/1, with upgrades.
    Http1,
    /// HTTP/2.
    Http2,
    /// HTTP/1 or HTTP/2, as the client turns out to speak, with upgrades.
    Auto,
}

/// A server that can serve HTTP over one connection. The set of servers
/// is closed.
pub trait HyperConnServer: Sealed {

}

impl HyperConnServer for hyper::server::conn::http1::Builder {

}

impl<E> HyperConnServer for hyper::server::conn::http2::Builder<E> {

}

impl<E> HyperConnServer for hyper_util::server::conn::auto::Builder<E> {

}

/// Where the driver of a connection stands.
#[derive(Debug, Clone, Copy, PartialEq, Eq, Structural)]
pub enum DriverState {
    /// The connection is being served.
    Serving,
    /// Shutdown was asked for; the connection is winding down.
    GracefulShutdownRequested,
    /// The connection has ended and its result has been handed out.
    Done,
}

/// What happened to the connection.
#[derive(Debug, PartialEq, Eq)]
pub enum DriverEvent {
    /// The guard gave the signal of shutdown.
    Cancelled,
    /// The connection ended, with this result.
    Finished(HttpServeResult),
}

/// What is to be done next for the connection.
#[derive(Debug, PartialEq, Eq)]
pub enum DriverAction {
    /// Wait until the connection ends or the guard gives the signal,
    /// whichever comes first.
    Race,
    /// Wait until the connection ends.
    Await,
    /// Tell the connection to wind down (to take no new exchange and to
    /// finish those under way), then wait until it ends.
    ShutdownThenAwait,
    /// Return this result: the connection has ended.
    Return(HttpServeResult),
    /// Nothing: the result has been returned already.
    Nothing,
}

/// The driver of one connection: it says what to do next as the events
/// of the connection come in.
#[derive(Debug, Clone, Copy, PartialEq, Eq, Structural)]
pub struct ConnectionDriver {
    state: DriverState,
    guarded: bool,
    graceful: bool,
}

/// The state and the action that follow from `state` on `event`, for a
/// driver with a guard (`guarded`) whose connection can wind down
/// (`graceful`).
pub open spec fn step(state: DriverState, guarded: bool, graceful: bool, event: DriverEvent) -> (
    DriverState,
    DriverAction,
) {
    match state {
        DriverState::Done => (DriverState::Done, DriverAction::Nothing),
        DriverState::Serving => match event {
            DriverEvent::Finished(result) => (DriverState::Done, DriverAction::Return(classified(result))),
            DriverEvent::Cancelled => if !guarded {
                (DriverState::Serving, DriverAction::Await)
            } else if graceful {
                (DriverState::GracefulShutdownRequested, DriverAction::ShutdownThenAwait)
            } else {
                (DriverState::GracefulShutdownRequested, DriverAction::Await)
            },
        },
        DriverState::GracefulShutdownRequested => match event {
            DriverEvent::Finished(result) => (DriverState::Done, DriverAction::Return(classified(result))),
            DriverEvent::Cancelled => (DriverState::GracefulShutdownRequested, DriverAction::Await),
        },
    }
}

impl ConnectionDriver {
    /// Where the driver stands.
    pub closed spec fn state_spec(&self) -> DriverState {
        self.state
    }

    /// Whether the call has a guard.
    pub closed spec fn guarded(&self) -> bool {
        self.guarded
    }

    /// Whether the connection can be told to wind down.
    pub closed spec fn graceful(&self) -> bool {
        self.graceful
    }

    /// The first action of a driver: to race the connection against the
    /// guard where there is a guard, else to wait for the connection.
    pub open spec fn first_action(guarded: bool) -> DriverAction {
        if guarded {
            DriverAction::Race
        } else {
            DriverAction::Await
        }
    }

    /// A driver for a connection that is about to be served, and its
    /// first action.
    pub fn start(guarded: bool, graceful: bool) -> (begun: (ConnectionDriver, DriverAction))
        ensures
            begun.0.state_spec() == DriverState::Serving,
            begun.0.guarded() == guarded,
            begun.0.graceful() == graceful,
            begun.1 == Self::first_action(guarded),
    {
        let driver = ConnectionDriver { state: DriverState::Serving, guarded, graceful };
        let action = if guarded {
            DriverAction::Race
        } else {
            DriverAction::Await
        };
        (driver, action)
    }

    /// A driver for a connection of the server `server`, and its first
    /// action. Every server of this library can wind a connection down.
    pub fn for_server<S: HyperConnServer>(server: &S, guarded: bool) -> (begun: (
        ConnectionDriver,
        DriverAction,
    ))
        ensures
            begun.0.state_spec() == DriverState::Serving,
            begun.0.guarded() == guarded,
            begun.0.graceful(),
            begun.1 == Self::first_action(guarded),
    {
        ConnectionDriver::start(guarded, true)
    }

    /// Where the driver stands.
    pub fn state(&self) -> (state: DriverState)
        ensures
            state == self.state_spec(),
    {
        self.state
    }

    /// Takes one event of the connection and says what to do next.
    pub fn on_event(&mut self, event: DriverEvent) -> (action: DriverAction)
        ensures
            (final(self).state_spec(), action) == step(
                old(self).state_spec(),
                old(self).guarded(),
                old(self).graceful(),
                event,
            ),
            final(self).guarded() == old(self).guarded(),
            final(self).graceful() == old(self).graceful(),
    {
        match self.state {
            DriverState::Done => DriverAction::Nothing,
            DriverState::Serving => match event {
                DriverEvent::Finished(result) => {
                    self.state = DriverState::Done;
                    DriverAction::Return(map_boxed_hyper_result(result))
                },
                DriverEvent::Cancelled => {
                    if !self.guarded {
                        DriverAction::Await
                    } else {
                        self.state = DriverState::GracefulShutdownRequested;
                        if self.graceful {
                            DriverAction::ShutdownThenAwait
                        } else {
                            DriverAction::Await
                        }
                    }
                },
            },
            DriverState::GracefulShutdownRequested => match event {
                DriverEvent::Finished(result) => {
                    self.state = DriverState::Done;
                    DriverAction::Return(map_boxed_hyper_result(result))
                },
                DriverEvent::Cancelled => DriverAction::Await,
            },
        }
    }
}

} // verus!
