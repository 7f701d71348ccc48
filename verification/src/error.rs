//! Failures of the machine layer, as the API reads them.

use vstd::prelude::*;

verus! {

/// What an agent failure was about.
#[derive(Debug, Clone, Copy, PartialEq, Eq, Structural)]
pub enum AgentErrorKind {
    /// The thing asked for does not exist.
    NotFound,
    /// The thing asked for already exists, or is in the wrong state.
    Conflict,
    /// Anything else.
    Other,
}

/// A failure of the machine layer.
///
/// A kind that the API only ever shows whole carries its rendered message.
#[derive(Debug)]
pub enum Error {
    /// No machine has this name.
    VmNotFound { name: String },
    /// A machine was in another state than the operation needs.
    InvalidState { expected: String, actual: String },
    /// The agent inside a machine reported a failure.
    Agent { operation: String, reason: String, kind: AgentErrorKind },
    /// A mount could not be set up.
    Mount { message: String },
    /// A mount path is not acceptable.
    InvalidMountPath { message: String },
    /// The host side of a mount does not exist.
    MountSourceNotFound { message: String },
    /// Any other failure.
    Other { message: String },
}

impl Error {
    /// Whether this is an agent failure with exactly these parts.
    pub open spec fn is_agent(
        self,
        operation: Seq<char>,
        reason: Seq<char>,
        kind: AgentErrorKind,
    ) -> bool {
        self matches Error::Agent { operation: o, reason: r, kind: k } && o@ == operation && r@
            == reason && k == kind
    }

    /// An agent failure of no particular kind.
    pub fn agent(operation: &str, reason: &str) -> (err: Error)
        ensures
            err.is_agent(operation@, reason@, AgentErrorKind::Other),
    {
        Error::Agent {
            operation: operation.to_owned(),
            reason: reason.to_owned(),
            kind: AgentErrorKind::Other,
        }
    }

    /// An agent failure because something does not exist.
    pub fn agent_not_found(operation: &str, reason: &str) -> (err: Error)
        ensures
            err.is_agent(operation@, reason@, AgentErrorKind::NotFound),
    {
        Error::Agent {
            operation: operation.to_owned(),
            reason: reason.to_owned(),
            kind: AgentErrorKind::NotFound,
        }
    }

    /// An agent failure because something is in the way.
    pub fn agent_conflict(operation: &str, reason: &str) -> (err: Error)
        ensures
            err.is_agent(operation@, reason@, AgentErrorKind::Conflict),
    {
        Error::Agent {
            operation: operation.to_owned(),
            reason: reason.to_owned(),
            kind: AgentErrorKind::Conflict,
        }
    }
}

/// An agent failure with given parts has exactly these parts.
pub proof fn law_agent_failures_keep_their_parts(
    err: Error,
    operation: Seq<char>,
    reason: Seq<char>,
    kind: AgentErrorKind,
)
    ensures
        err.is_agent(operation, reason, kind) <==> (err matches Error::Agent {
            operation: o,
            reason: r,
            kind: k,
        } && o@ == operation && r@ == reason && k == kind),
{
}

} // verus!
