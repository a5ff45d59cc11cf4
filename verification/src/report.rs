//! How a proxied session ended, and what is reported of it.

use crate::address::SocketAddress;
use crate::time::TimeSpan;
use vstd::prelude::*;

verus! {

/// The phase of a session in which input or output can fail.
#[derive(Clone, Copy, Debug, PartialEq, Eq, Structural)]
pub enum Phase {
    /// Dialing the backend.
    Connect,
    /// Reading the source of one direction.
    Read,
    /// Writing the destination of one direction.
    Write,
}

/// The outcome of a session that was given a backend.
#[derive(Clone, Copy, Debug, PartialEq, Eq, Structural)]
pub enum Outcome {
    /// Both directions ran to their end; the bytes copied from the client to
    /// the backend, and back.
    Success { request_size: u64, response_size: u64 },
    ConnectionFailure,
    ConnectionTimeout,
    ReadFailure,
    ReadTimeout,
    WriteFailure,
    WriteTimeout,
}

impl Outcome {
    /// The outcome of a session that broke in `phase`: a timeout where the
    /// bound set for that phase ran out, a failure for any other error.
    pub open spec fn broken(phase: Phase, timed_out: bool) -> Outcome {
        match phase {
            Phase::Connect => if timed_out {
                Outcome::ConnectionTimeout
            } else {
                Outcome::ConnectionFailure
            },
            Phase::Read => if timed_out {
                Outcome::ReadTimeout
            } else {
                Outcome::ReadFailure
            },
            Phase::Write => if timed_out {
                Outcome::WriteTimeout
            } else {
                Outcome::WriteFailure
            },
        }
    }

    /// Whether this outcome is the success.
    pub open spec fn is_success(self) -> bool {
        self is Success
    }

    /// The phase in which the session broke, if it did.
    pub open spec fn phase(self) -> Option<Phase> {
        match self {
            Outcome::Success { .. } => None,
            Outcome::ConnectionFailure | Outcome::ConnectionTimeout => Some(Phase::Connect),
            Outcome::ReadFailure | Outcome::ReadTimeout => Some(Phase::Read),
            Outcome::WriteFailure | Outcome::WriteTimeout => Some(Phase::Write),
        }
    }

    /// Whether the session ran into the bound set for a phase.
    pub open spec fn timed_out(self) -> bool {
        self is ConnectionTimeout || self is ReadTimeout || self is WriteTimeout
    }

    /// What the failure clock of the backend is set to by this outcome after
    /// `elapsed`: nothing known for a success, else the whole seconds.
    pub open spec fn failed_after(self, elapsed: TimeSpan) -> Option<u64> {
        if self.is_success() {
            None
        } else {
            Some(elapsed.secs)
        }
    }

    /// Whether this outcome is the success.
    pub fn succeeded(&self) -> (success: bool)
        ensures
            success == self.is_success(),
    {
        match self {
            Outcome::Success { .. } => true,
            _ => false,
        }
    }
}

/// The event reported when a session ends.
#[derive(Debug)]
pub struct Report {
    /// The client's address.
    pub client: SocketAddress,
    /// The address of the backend that was chosen.
    pub backend: SocketAddress,
    /// How the session ended.
    pub outcome: Outcome,
    /// The error underneath, for every outcome but the success.
    pub error: Option<std::io::Error>,
    /// The time from the client's admission to this report.
    pub elapsed: TimeSpan,
}

} // verus!
