//! Error kinds surfaced by the follower and by the session layer. All of
//! them are fatal for the session they occur in; nothing is retried.

use vstd::prelude::*;
use crate::msg::PRFMessage;

verus! {

/// Failure reported by the garbled-circuit executor. The executor runs its
/// own sub-protocol with the peer; the follower only relays its verdict.
#[derive(Clone, Copy, Debug, PartialEq, Eq, Structural)]
pub enum CircuitError {
    /// The two-party evaluation of the named circuit did not complete.
    ExecutionFailed,
    /// The peer aborted the circuit sub-protocol.
    PeerAborted,
}

/// Reason a follower-side verifier configuration was rejected.
#[derive(Clone, Copy, Debug, PartialEq, Eq, Structural)]
pub enum ConfigIssue {
    /// No bound message was supplied; the configuration requires one.
    MissingBoundMessage,
    /// The bound message was supplied but empty.
    EmptyBoundMessage,
}

/// Errors of the PRF follower proper.
#[derive(Clone, Copy, Debug, PartialEq, Eq)]
pub enum PRFError {
    /// An inbound message did not carry the tag expected at the current
    /// step; the offending message is returned.
    UnexpectedMessage(PRFMessage),
    /// The channel reported end-of-stream where a message was expected.
    ConnectionAborted,
    /// The transport failed underneath the channel. No function of this
    /// crate produces it: the in-memory channel model is reliable; the
    /// embedding maps real transport failures to it.
    Channel,
    /// The garbled-circuit executor failed.
    GarbledCircuit(CircuitError),
    /// A wire record failed to decode against the expected shape.
    Malformed,
    /// The verifier configuration rejected a required parameter.
    ConfigError(ConfigIssue),
}

/// Reason a prover request was refused by the session layer.
#[derive(Clone, Copy, Debug, PartialEq, Eq, Structural)]
pub enum BadProverReason {
    /// The session id was never allocated, or was already consumed.
    SessionIdNotFound,
    /// The requested transcript sizes exceed the configured ceiling.
    MaxTranscriptSizeExceeded,
    /// The request named no known upgrade protocol.
    UpgradeHeaderNotSet,
    /// The request body did not parse as a session request. No function
    /// of this crate produces it: the embedding owns the request
    /// encoding, and maps its parse failures to it.
    MalformedRequest,
}

/// Errors of the session-initialization layer.
#[derive(Clone, Copy, Debug, PartialEq, Eq)]
pub enum NotaryServerError {
    /// The prover's request was invalid; the reason says why.
    BadProverRequest(BadProverReason),
}

impl BadProverReason {
    /// Human-readable description, for the embedding's responses.
    pub fn message(&self) -> (m: &'static str)
        ensures
            *self == BadProverReason::SessionIdNotFound ==> m@
                == "Session id does not exist"@,
            *self == BadProverReason::MaxTranscriptSizeExceeded ==> m@
                == "Max transcript size requested exceeds the maximum threshold"@,
            *self == BadProverReason::UpgradeHeaderNotSet ==> m@
                == "Upgrade header is not set for client"@,
            *self == BadProverReason::MalformedRequest ==> m@
                == "Malformed payload submitted for initializing notarization"@,
    {
        match self {
            BadProverReason::SessionIdNotFound => "Session id does not exist",
            BadProverReason::MaxTranscriptSizeExceeded => {
                "Max transcript size requested exceeds the maximum threshold"
            },
            BadProverReason::UpgradeHeaderNotSet => "Upgrade header is not set for client",
            BadProverReason::MalformedRequest => {
                "Malformed payload submitted for initializing notarization"
            },
        }
    }
}

} // verus!
