//! The pure PRF core: one linear value per protocol step. Each value is
//! consumed by its single transition and yields the next step's value, so
//! no step can be repeated or skipped. Every transition is a function of
//! its arguments alone: the outbound payload is the outer HMAC hash of the
//! inbound inner hash under the state the value carries.

use vstd::prelude::*;
use crate::sha256::{outer_hash, spec_outer_hash};

verus! {

/// Master-secret derivation, first round: waits for the outer-pad state
/// from circuit `c1` and the leader's first inner hash.
pub struct Ms1Core {}

/// Master-secret derivation, second round.
pub struct Ms2Core {
    pub outer_state: [u32; 8],
}

/// Master-secret derivation, third round; its transition produces no
/// outbound message, only the intermediate `p2`.
pub struct Ms3Core {
    pub outer_state: [u32; 8],
}

/// Master-secret derivation finished: carries `p2`, to be fed to circuit
/// `c2`, and waits for the key-expansion state that `c2` returns.
pub struct MsDoneCore {
    pub p2: [u8; 32],
}

/// Key expansion, first round.
pub struct Ke1Core {
    pub outer_state: [u32; 8],
}

/// Key expansion, second round.
pub struct Ke2Core {
    pub outer_state: [u32; 8],
}

/// Client-finished verify data, first round.
pub struct Cf1Core {
    pub outer_state: [u32; 8],
}

/// Client-finished verify data, second round.
pub struct Cf2Core {
    pub outer_state: [u32; 8],
}

/// Server-finished verify data, first round.
pub struct Sf1Core {
    pub outer_state: [u32; 8],
}

/// Server-finished verify data, second round; the last transition of the
/// core.
pub struct Sf2Core {
    pub outer_state: [u32; 8],
}

impl Ms1Core {
    /// A fresh core, at the start of master-secret derivation.
    pub fn new() -> (s: Ms1Core)
        ensures
            s == (Ms1Core {  }),
    {
        Ms1Core {  }
    }

    /// Folds the `c1` outer state and the leader's first inner hash into
    /// the first outer hash.
    pub fn next(self, outer_state: [u32; 8], inner: &[u8; 32]) -> (r: ([u8; 32], Ms2Core))
        ensures
            r.0@ == spec_outer_hash(outer_state@, inner@),
            r.1.outer_state == outer_state,
    {
        (outer_hash(&outer_state, inner), Ms2Core { outer_state })
    }
}

impl Ms2Core {
    /// Second master-secret round.
    pub fn next(self, inner: &[u8; 32]) -> (r: ([u8; 32], Ms3Core))
        ensures
            r.0@ == spec_outer_hash(self.outer_state@, inner@),
            r.1.outer_state == self.outer_state,
    {
        let out = outer_hash(&self.outer_state, inner);
        (out, Ms3Core { outer_state: self.outer_state })
    }
}

impl Ms3Core {
    /// Third master-secret round: nothing is sent back; the outer hash is
    /// retained as `p2`.
    pub fn next(self, inner: &[u8; 32]) -> (r: MsDoneCore)
        ensures
            r.p2@ == spec_outer_hash(self.outer_state@, inner@),
    {
        MsDoneCore { p2: outer_hash(&self.outer_state, inner) }
    }
}

impl MsDoneCore {
    /// The intermediate value destined for circuit `c2`.
    pub fn p2(&self) -> (p: [u8; 32])
        ensures
            p == self.p2,
    {
        self.p2
    }

    /// Advances into key expansion under the state `c2` returned.
    pub fn next(self, outer_state: [u32; 8]) -> (r: Ke1Core)
        ensures
            r.outer_state == outer_state,
    {
        Ke1Core { outer_state }
    }
}

impl Ke1Core {
    /// First key-expansion round.
    pub fn next(self, inner: &[u8; 32]) -> (r: ([u8; 32], Ke2Core))
        ensures
            r.0@ == spec_outer_hash(self.outer_state@, inner@),
            r.1.outer_state == self.outer_state,
    {
        let out = outer_hash(&self.outer_state, inner);
        (out, Ke2Core { outer_state: self.outer_state })
    }
}

impl Ke2Core {
    /// Second key-expansion round; afterwards the core waits for the
    /// client-finished exchange under the same state.
    pub fn next(self, inner: &[u8; 32]) -> (r: ([u8; 32], Cf1Core))
        ensures
            r.0@ == spec_outer_hash(self.outer_state@, inner@),
            r.1.outer_state == self.outer_state,
    {
        let out = outer_hash(&self.outer_state, inner);
        (out, Cf1Core { outer_state: self.outer_state })
    }
}

impl Cf1Core {
    /// First client-finished round.
    pub fn next(self, inner: &[u8; 32]) -> (r: ([u8; 32], Cf2Core))
        ensures
            r.0@ == spec_outer_hash(self.outer_state@, inner@),
            r.1.outer_state == self.outer_state,
    {
        let out = outer_hash(&self.outer_state, inner);
        (out, Cf2Core { outer_state: self.outer_state })
    }
}

impl Cf2Core {
    /// Second client-finished round.
    pub fn next(self, inner: &[u8; 32]) -> (r: ([u8; 32], Sf1Core))
        ensures
            r.0@ == spec_outer_hash(self.outer_state@, inner@),
            r.1.outer_state == self.outer_state,
    {
        let out = outer_hash(&self.outer_state, inner);
        (out, Sf1Core { outer_state: self.outer_state })
    }
}

impl Sf1Core {
    /// First server-finished round.
    pub fn next(self, inner: &[u8; 32]) -> (r: ([u8; 32], Sf2Core))
        ensures
            r.0@ == spec_outer_hash(self.outer_state@, inner@),
            r.1.outer_state == self.outer_state,
    {
        let out = outer_hash(&self.outer_state, inner);
        (out, Sf2Core { outer_state: self.outer_state })
    }
}

impl Sf2Core {
    /// Second server-finished round: the core's final transition.
    pub fn next(self, inner: &[u8; 32]) -> (r: [u8; 32])
        ensures
            r@ == spec_outer_hash(self.outer_state@, inner@),
    {
        outer_hash(&self.outer_state, inner)
    }
}

} // verus!
