//! Follower side of a two-party TLS 1.2 PRF, together with the session
//! bookkeeping of the notary that hosts it.
//!
//! The crate is organised around a linear, message-driven state machine:
//! the follower holds the outer half of an HMAC-SHA-256 evaluation and
//! answers the leader's inner hashes phase by phase (master secret, key
//! expansion, client finished, server finished), delegating the
//! secret-dependent steps to a garbled-circuit executor supplied by the
//! caller.

pub mod channel;
pub mod error;
pub mod executor;
pub mod follower;
pub mod msg;
pub mod prf_core;
pub mod session;
pub mod sha256;
