//! The garbled-circuit executor as a capability: run a named two-party
//! circuit with the peer and hand back its labelled output. The follower
//! assumes nothing about how a circuit is evaluated, only the shape of
//! what comes back; an executor error is fatal for the session.

use vstd::prelude::*;
use crate::error::CircuitError;

verus! {

/// The follower's additive share of the premaster secret point's
/// x-coordinate, supplied by the upstream key-exchange subprotocol. Any
/// 32-byte value is accepted — an all-zero share included; circuit `c1`
/// decides validity.
pub struct P256SecretShare {
    pub bytes: [u8; 32],
}

/// The follower's additive shares of the session keys, as circuit `c3`
/// outputs them. The leader holds the matching shares; the xor of the two
/// sides yields the real TLS write keys and IVs.
pub struct SessionKeyShares {
    pub client_write_key: [u8; 16],
    pub server_write_key: [u8; 16],
    pub client_write_iv: [u8; 4],
    pub server_write_iv: [u8; 4],
}

/// Capability to run the three named circuits of the protocol. Each call
/// evaluates the circuit jointly with the peer; nothing is promised of the
/// outputs — the follower's own contracts hold whatever comes back.
pub trait CircuitExecutor {
    /// `c1`: derive the outer-pad hash state of the master-secret HMAC
    /// from the two parties' P-256 shares.
    fn c1(&mut self, secret_share: &P256SecretShare) -> Result<[u32; 8], CircuitError>;

    /// `c2`: absorb the intermediate `p2` into the HMAC evaluation,
    /// yielding the outer-pad state used for key expansion.
    fn c2(&mut self, outer_state: &[u32; 8], p2: &[u8; 32]) -> Result<[u32; 8], CircuitError>;

    /// `c3`: derive the follower's session-key shares.
    fn c3(&mut self, outer_state: &[u32; 8]) -> Result<SessionKeyShares, CircuitError>;
}

} // verus!
