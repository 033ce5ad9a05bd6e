//! The values exchanged with the server, and the errors a session ends with.

use vstd::prelude::*;

verus! {

/// A protocol version. Two ends are compatible exactly when their versions
/// are equal.
#[derive(Clone, Copy, Debug, PartialEq, Eq, Structural)]
pub struct Version(pub u64);

/// The server's verdict on the answer to its authentication challenge.
#[derive(Clone, Copy, Debug, PartialEq, Eq, Structural)]
pub enum AuthStatus {
    Passed,
    Failed,
}

/// One message of the server in steady state.
///
/// `D` describes a device to emulate (its name, vendor, product and version
/// identifiers, relative and absolute axes, keys, autorepeat delay and
/// period) and `E` is one input event. The session hands both through to the
/// device backend untouched.
#[derive(Debug, PartialEq, Eq)]
pub enum Update<D, E> {
    Control { active: bool },
    CreateDevice { id: u64, descriptor: D },
    DestroyDevice { id: u64 },
    Event { id: u64, event: E },
    Ping,
}

/// Why the network side of a session failed. `F` is the driver's own I/O
/// error, which the session never inspects.
#[derive(Debug, PartialEq, Eq)]
pub enum Failure<F> {
    /// No ping arrived within the keepalive interval.
    TimedOut,
    /// The server sent an event to a device that does not exist.
    InvalidData,
    /// The transport failed.
    Io(F),
}

impl<F> Failure<F> {
    /// The words that go with a failure which the session itself found. A
    /// failure of the transport speaks for itself.
    pub open spec fn text(self) -> Option<&'static str> {
        match self {
            Failure::TimedOut => Some("Ping timed out"),
            Failure::InvalidData => Some("Server sent an event to a nonexistent device"),
            Failure::Io(_) => None,
        }
    }

    /// The words that go with a failure which the session itself found.
    pub fn message(&self) -> (message: Option<&'static str>)
        ensures
            message == self.text(),
    {
        match self {
            Failure::TimedOut => Some("Ping timed out"),
            Failure::InvalidData => Some("Server sent an event to a nonexistent device"),
            Failure::Io(_) => None,
        }
    }
}

/// How a session ends. Every variant is fatal to the connection.
#[derive(Debug, PartialEq, Eq)]
pub enum Error<F> {
    /// The transport failed, the server fell silent, or it broke the protocol.
    Network(Failure<F>),
    /// An emulated device could not be created or written to.
    Input(F),
    /// The two ends speak different versions. `server` is the version this
    /// session was opened with and `client` the one that the peer announced.
    Version { server: Version, client: Version },
    /// The server did not accept the answer to its challenge.
    Auth,
}

} // verus!
