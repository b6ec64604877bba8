//! What the forwarder tells its operator. The forwarder only says what
//! happened; wording and destination are the caller's.

use vstd::prelude::*;
use crate::relay::{IoFailure, RelayError};

verus! {

/// One of the two byte streams of a connection.
#[derive(Debug, Clone, Copy, PartialEq, Eq, Structural)]
pub enum Direction {
    ClientToUpstream,
    UpstreamToClient,
}

impl Direction {
    /// The other stream of the same connection.
    pub open spec fn opposite(self) -> Direction {
        match self {
            Direction::ClientToUpstream => Direction::UpstreamToClient,
            Direction::UpstreamToClient => Direction::ClientToUpstream,
        }
    }

    #[verifier::when_used_as_spec(opposite)]
    pub fn reverse(self) -> (other: Direction)
        ensures
            other == self.opposite(),
    {
        match self {
            Direction::ClientToUpstream => Direction::UpstreamToClient,
            Direction::UpstreamToClient => Direction::ClientToUpstream,
        }
    }
}

/// Something that happened to a listener or to one of its connections.
#[derive(Debug, PartialEq, Eq)]
#[allow(inconsistent_fields)]
pub enum Event {
    /// A listener is bound and forwards to its upstream.
    ForwardStarted { rule_name: String, bound_address: String, upstream_address: String },
    /// A client was accepted.
    ClientConnected { rule_name: String, client_address: String },
    /// The upstream could not be reached for a client.
    UpstreamConnectFailed { rule_name: String, client_address: String, error: IoFailure },
    /// A direction ended in good order after that many bytes.
    DirectionClosed { direction: Direction, client_address: String, bytes_transferred: usize },
    /// A direction ended with an error.
    DirectionFailed { direction: Direction, client_address: String, error: RelayError },
    /// A connection is over.
    ConnectionClosed { client_address: String },
}

impl Event {
    /// Whether the event reports an error.
    pub open spec fn is_error(&self) -> bool {
        self is UpstreamConnectFailed || self is DirectionFailed
    }

    #[verifier::when_used_as_spec(is_error)]
    pub fn reports_error(&self) -> (error: bool)
        ensures
            error == self.is_error(),
    {
        match self {
            Event::UpstreamConnectFailed { .. } => true,
            Event::DirectionFailed { .. } => true,
            _ => false,
        }
    }
}

} // verus!
