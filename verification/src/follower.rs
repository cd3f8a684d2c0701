//! The follower orchestrator: walks the protocol's phases over the typed
//! channel, couples circuit outputs with the pure core, and enforces the
//! strict message order. Each phase value is consumed by its driver and
//! replaced by the next phase, so no phase can be re-entered or skipped.

use vstd::prelude::*;
use crate::channel::PRFChannel;
use crate::error::PRFError;
use crate::executor::{CircuitExecutor, P256SecretShare, SessionKeyShares};
use crate::msg::{MsgTag, PRFMessage};
use crate::prf_core::{Cf1Core, Ke1Core, Ms1Core, MsDoneCore, Sf1Core};
use crate::sha256::spec_outer_hash;

verus! {

/// Tags the leader must deliver during master-secret derivation.
pub open spec fn ms_tags() -> Seq<MsgTag> {
    seq![MsgTag::LeaderMs1, MsgTag::LeaderMs2, MsgTag::LeaderMs3]
}

/// Tags the leader must deliver during key expansion.
pub open spec fn ke_tags() -> Seq<MsgTag> {
    seq![MsgTag::LeaderKe1, MsgTag::LeaderKe2]
}

/// Tags of the whole master-secret and key-expansion stretch.
pub open spec fn ms_ke_tags() -> Seq<MsgTag> {
    ms_tags() + ke_tags()
}

/// Tags the leader must deliver during the client-finished phase.
pub open spec fn cf_tags() -> Seq<MsgTag> {
    seq![MsgTag::LeaderCf1, MsgTag::LeaderCf2]
}

/// Tags the leader must deliver during the server-finished phase.
pub open spec fn sf_tags() -> Seq<MsgTag> {
    seq![MsgTag::LeaderSf1, MsgTag::LeaderSf2]
}

/// How many inbound messages, starting at `pos`, match the expected tag
/// sequence before the first deviation or the end of the script.
pub open spec fn match_len(script: Seq<PRFMessage>, pos: int, expected: Seq<MsgTag>) -> int
    decreases expected.len(),
{
    if expected.len() == 0 {
        0
    } else if 0 <= pos < script.len() && script[pos].tag == expected[0] {
        1 + match_len(script, pos + 1, expected.drop_first())
    } else {
        0
    }
}

/// The script delivers every expected tag, in order.
pub open spec fn tags_ok(script: Seq<PRFMessage>, pos: int, expected: Seq<MsgTag>) -> bool {
    match_len(script, pos, expected) == expected.len()
}

/// The error an exchange raises when the script deviates: the offending
/// message if one arrived, `ConnectionAborted` if the stream ended first.
pub open spec fn spec_exchange_err(
    script: Seq<PRFMessage>,
    pos: int,
    expected: Seq<MsgTag>,
) -> PRFError {
    let k = match_len(script, pos, expected);
    if pos + k < script.len() {
        PRFError::UnexpectedMessage(script[pos + k])
    } else {
        PRFError::ConnectionAborted
    }
}

/// `match_len` on an empty expectation is zero.
pub proof fn lemma_match_len_empty(script: Seq<PRFMessage>, pos: int, expected: Seq<MsgTag>)
    requires
        expected.len() == 0,
    ensures
        match_len(script, pos, expected) == 0,
{
}

/// `match_len` counts a matching head and recurses past it.
pub proof fn lemma_match_len_step(script: Seq<PRFMessage>, pos: int, expected: Seq<MsgTag>)
    requires
        expected.len() > 0,
        0 <= pos < script.len(),
        script[pos].tag == expected[0],
    ensures
        match_len(script, pos, expected) == 1 + match_len(script, pos + 1, expected.drop_first()),
{
}

/// `match_len` stops at a missing or deviating head.
pub proof fn lemma_match_len_stop(script: Seq<PRFMessage>, pos: int, expected: Seq<MsgTag>)
    requires
        expected.len() > 0,
        !(0 <= pos < script.len() && script[pos].tag == expected[0]),
    ensures
        match_len(script, pos, expected) == 0,
{
}

/// An outbound follower message: the given tag over the outer hash of
/// `inner` under `state`.
pub open spec fn is_reply(m: PRFMessage, tag: MsgTag, state: Seq<u32>, inner: Seq<u8>) -> bool {
    m.tag == tag && m.payload@ == spec_outer_hash(state, inner)
}

/// What `match_len` means, spelled out: a fully matching prefix, and a
/// deviation or the end of the script right after it (unless every
/// expected tag matched).
pub proof fn lemma_match_len_spec(script: Seq<PRFMessage>, pos: int, expected: Seq<MsgTag>)
    requires
        0 <= pos <= script.len(),
    ensures
        0 <= match_len(script, pos, expected) <= expected.len(),
        pos + match_len(script, pos, expected) <= script.len(),
        forall|i: int|
            0 <= i < match_len(script, pos, expected) ==> script[pos + i].tag == expected[i],
        match_len(script, pos, expected) < expected.len() ==> (pos + match_len(
            script,
            pos,
            expected,
        ) == script.len() || script[pos + match_len(script, pos, expected)].tag != expected[
            match_len(script, pos, expected)
        ]),
    decreases expected.len(),
{
    if expected.len() == 0 {
    } else if pos < script.len() && script[pos].tag == expected[0] {
        lemma_match_len_spec(script, pos + 1, expected.drop_first());
        let k = match_len(script, pos, expected);
        assert(k == 1 + match_len(script, pos + 1, expected.drop_first()));
        assert forall|i: int| 0 <= i < k implies script[pos + i].tag == expected[i] by {
            if i > 0 {
                assert(script[pos + 1 + (i - 1)].tag == expected.drop_first()[i - 1]);
            }
        }
        if k < expected.len() {
            assert(expected.drop_first()[k - 1] == expected[k as int]);
        }
    } else {
    }
}

/// Law: whenever any message arrives out of the expected order — the
/// first `i` tags matched and the message at position `i` carries a
/// different tag — the exchange fails with `UnexpectedMessage` naming
/// exactly that message.
pub proof fn lemma_out_of_order_rejected(
    script: Seq<PRFMessage>,
    pos: int,
    expected: Seq<MsgTag>,
    i: int,
)
    requires
        0 <= pos,
        pos + i < script.len(),
        script.len() >= pos,
        0 <= i < expected.len(),
        forall|j: int| 0 <= j < i ==> script[pos + j].tag == expected[j],
        script[pos + i].tag != expected[i],
    ensures
        !tags_ok(script, pos, expected),
        spec_exchange_err(script, pos, expected) == PRFError::UnexpectedMessage(script[pos + i]),
{
    lemma_match_len_spec(script, pos, expected);
    let k = match_len(script, pos, expected);
    if k > i {
        assert(script[pos + i].tag == expected[i]);
    }
    if k < i {
        assert(pos + k < pos + i);
        assert(script[pos + k].tag == expected[k]);
    }
    assert(k == i);
}

/// Law: if the stream ends before the exchange is complete — every
/// message that did arrive matched, but fewer than expected — the
/// exchange fails with `ConnectionAborted`.
pub proof fn lemma_early_close_aborts(script: Seq<PRFMessage>, pos: int, expected: Seq<MsgTag>)
    requires
        0 <= pos <= script.len(),
        script.len() - pos < expected.len(),
        forall|j: int| pos <= j < script.len() ==> script[j].tag == expected[j - pos],
    ensures
        !tags_ok(script, pos, expected),
        spec_exchange_err(script, pos, expected) == PRFError::ConnectionAborted,
{
    lemma_match_len_spec(script, pos, expected);
    let k = match_len(script, pos, expected);
    if pos + k < script.len() {
        assert(script[pos + k].tag == expected[k]);
    }
}

/// Receives the next message and requires it to carry the expected tag.
/// A message of any other tag is consumed and reported; end-of-stream is
/// reported as an aborted connection.
pub fn expect(channel: &mut PRFChannel, want: MsgTag) -> (r: Result<[u8; 32], PRFError>)
    requires
        old(channel).wf(),
    ensures
        final(channel).wf(),
        final(channel).inbound@ == old(channel).inbound@,
        final(channel).sent@ == old(channel).sent@,
        ({
            let script = old(channel).inbound@;
            let pos = old(channel).pos as int;
            if pos == script.len() {
                r == Err::<[u8; 32], PRFError>(PRFError::ConnectionAborted) && final(channel).pos
                    == pos
            } else if script[pos].tag != want {
                r == Err::<[u8; 32], PRFError>(PRFError::UnexpectedMessage(script[pos])) && final(channel).pos == pos + 1
            } else {
                r == Ok::<[u8; 32], PRFError>(script[pos].payload) && final(channel).pos == pos
                    + 1
            }
        }),
{
    match channel.recv() {
        None => Err(PRFError::ConnectionAborted),
        Some(m) => {
            if m.tag == want {
                Ok(m.payload)
            } else {
                Err(PRFError::UnexpectedMessage(m))
            }
        },
    }
}

/// Drives the three master-secret rounds under the `c1` outer state:
/// answers `LeaderMs1` and `LeaderMs2`, absorbs `LeaderMs3` silently, and
/// retains `p2`.
#[verifier::rlimit(50)]
pub fn run_ms_phase(channel: &mut PRFChannel, core: Ms1Core, outer_state: [u32; 8]) -> (r: Result<
    MsDoneCore,
    PRFError,
>)
    requires
        old(channel).wf(),
    ensures
        final(channel).wf(),
        final(channel).inbound@ == old(channel).inbound@,
        final(channel).sent@.len() >= old(channel).sent@.len(),
        final(channel).sent@.subrange(0, old(channel).sent@.len() as int) == old(channel).sent@,
        ({
            let script = old(channel).inbound@;
            let pos = old(channel).pos as int;
            let sent = old(channel).sent@;
            let k = match_len(script, pos, ms_tags());
            match r {
                Ok(done) => tags_ok(script, pos, ms_tags()) && final(channel).pos == pos + 3
                    && final(channel).sent@.len() == sent.len() + 2 && is_reply(
                    final(channel).sent@[sent.len() as int],
                    MsgTag::FollowerMs1,
                    outer_state@,
                    script[pos].payload@,
                ) && is_reply(
                    final(channel).sent@[sent.len() as int + 1],
                    MsgTag::FollowerMs2,
                    outer_state@,
                    script[pos + 1].payload@,
                ) && done.p2@ == spec_outer_hash(outer_state@, script[pos + 2].payload@),
                Err(e) => !tags_ok(script, pos, ms_tags()) && e == spec_exchange_err(
                    script,
                    pos,
                    ms_tags(),
                ) && final(channel).sent@.len() == sent.len() + (if k < 2 {
                    k
                } else {
                    2
                }) && (k >= 1 ==> is_reply(
                    final(channel).sent@[sent.len() as int],
                    MsgTag::FollowerMs1,
                    outer_state@,
                    script[pos].payload@,
                )) && (k >= 2 ==> is_reply(
                    final(channel).sent@[sent.len() as int + 1],
                    MsgTag::FollowerMs2,
                    outer_state@,
                    script[pos + 1].payload@,
                )),
            }
        }),
{
    let ghost script = channel.inbound@;
    let ghost pos0 = channel.pos as int;
    let ghost sent0 = channel.sent@;
    proof {
        assert(ms_tags().drop_first() =~= seq![MsgTag::LeaderMs2, MsgTag::LeaderMs3]);
        assert(seq![MsgTag::LeaderMs2, MsgTag::LeaderMs3].drop_first() =~= seq![
            MsgTag::LeaderMs3,
        ]);
    }
    let m1 = match expect(channel, MsgTag::LeaderMs1) {
        Ok(p) => p,
        Err(e) => {
            proof {
                lemma_match_len_stop(script, pos0, ms_tags());
            }
            return Err(e);
        },
    };
    let (out1, core) = core.next(outer_state, &m1);
    channel.send(PRFMessage { tag: MsgTag::FollowerMs1, payload: out1 });
    let m2 = match expect(channel, MsgTag::LeaderMs2) {
        Ok(p) => p,
        Err(e) => {
            proof {
                lemma_match_len_stop(script, pos0 + 1, ms_tags().drop_first());
                lemma_match_len_step(script, pos0, ms_tags());
                assert(sent0.push(channel.sent@[sent0.len() as int]).subrange(
                    0,
                    sent0.len() as int,
                ) =~= sent0);
            }
            return Err(e);
        },
    };
    let (out2, core) = core.next(&m2);
    channel.send(PRFMessage { tag: MsgTag::FollowerMs2, payload: out2 });
    let m3 = match expect(channel, MsgTag::LeaderMs3) {
        Ok(p) => p,
        Err(e) => {
            proof {
                assert(ms_tags().drop_first().drop_first() =~= seq![MsgTag::LeaderMs3]);
                lemma_match_len_stop(script, pos0 + 2, ms_tags().drop_first().drop_first());
                lemma_match_len_step(script, pos0 + 1, ms_tags().drop_first());
                lemma_match_len_step(script, pos0, ms_tags());
                assert(channel.sent@.subrange(0, sent0.len() as int) =~= sent0);
            }
            return Err(e);
        },
    };
    let done = core.next(&m3);
    proof {
        assert(ms_tags().drop_first().drop_first() =~= seq![MsgTag::LeaderMs3]);
        assert(ms_tags().drop_first().drop_first().drop_first() =~= Seq::<MsgTag>::empty());
        lemma_match_len_empty(script, pos0 + 3, ms_tags().drop_first().drop_first().drop_first());
        lemma_match_len_step(script, pos0 + 2, ms_tags().drop_first().drop_first());
        lemma_match_len_step(script, pos0 + 1, ms_tags().drop_first());
        lemma_match_len_step(script, pos0, ms_tags());
        assert(channel.sent@.subrange(0, sent0.len() as int) =~= sent0);
    }
    Ok(done)
}

/// Drives the two key-expansion rounds under the `c2` outer state the
/// core carries: answers `LeaderKe1` and `LeaderKe2`.
#[verifier::rlimit(50)]
pub fn run_ke_phase(channel: &mut PRFChannel, core: Ke1Core) -> (r: Result<Cf1Core, PRFError>)
    requires
        old(channel).wf(),
    ensures
        final(channel).wf(),
        final(channel).inbound@ == old(channel).inbound@,
        final(channel).sent@.len() >= old(channel).sent@.len(),
        final(channel).sent@.subrange(0, old(channel).sent@.len() as int) == old(channel).sent@,
        ({
            let script = old(channel).inbound@;
            let pos = old(channel).pos as int;
            let sent = old(channel).sent@;
            let k = match_len(script, pos, ke_tags());
            match r {
                Ok(next) => tags_ok(script, pos, ke_tags()) && next.outer_state
                    == core.outer_state && final(channel).pos == pos + 2 && final(channel).sent@.len() == sent.len() + 2 && is_reply(
                    final(channel).sent@[sent.len() as int],
                    MsgTag::FollowerKe1,
                    core.outer_state@,
                    script[pos].payload@,
                ) && is_reply(
                    final(channel).sent@[sent.len() as int + 1],
                    MsgTag::FollowerKe2,
                    core.outer_state@,
                    script[pos + 1].payload@,
                ),
                Err(e) => !tags_ok(script, pos, ke_tags()) && e == spec_exchange_err(
                    script,
                    pos,
                    ke_tags(),
                ) && final(channel).sent@.len() == sent.len() + k && (k >= 1 ==> is_reply(
                    final(channel).sent@[sent.len() as int],
                    MsgTag::FollowerKe1,
                    core.outer_state@,
                    script[pos].payload@,
                )),
            }
        }),
{
    let ghost script = channel.inbound@;
    let ghost pos0 = channel.pos as int;
    let ghost sent0 = channel.sent@;
    proof {
        assert(ke_tags().drop_first() =~= seq![MsgTag::LeaderKe2]);
    }
    let m1 = match expect(channel, MsgTag::LeaderKe1) {
        Ok(p) => p,
        Err(e) => {
            proof {
                lemma_match_len_stop(script, pos0, ke_tags());
            }
            return Err(e);
        },
    };
    let (out1, core) = core.next(&m1);
    channel.send(PRFMessage { tag: MsgTag::FollowerKe1, payload: out1 });
    let m2 = match expect(channel, MsgTag::LeaderKe2) {
        Ok(p) => p,
        Err(e) => {
            proof {
                lemma_match_len_stop(script, pos0 + 1, ke_tags().drop_first());
                lemma_match_len_step(script, pos0, ke_tags());
                assert(channel.sent@.subrange(0, sent0.len() as int) =~= sent0);
            }
            return Err(e);
        },
    };
    let (out2, next) = core.next(&m2);
    channel.send(PRFMessage { tag: MsgTag::FollowerKe2, payload: out2 });
    proof {
        assert(ke_tags().drop_first().drop_first() =~= Seq::<MsgTag>::empty());
        lemma_match_len_empty(script, pos0 + 2, ke_tags().drop_first().drop_first());
        lemma_match_len_step(script, pos0 + 1, ke_tags().drop_first());
        lemma_match_len_step(script, pos0, ke_tags());
        assert(channel.sent@.subrange(0, sent0.len() as int) =~= sent0);
    }
    Ok(next)
}

/// Drives the two client-finished rounds: answers `LeaderCf1` and
/// `LeaderCf2`.
#[verifier::rlimit(50)]
pub fn run_cf_phase(channel: &mut PRFChannel, core: Cf1Core) -> (r: Result<Sf1Core, PRFError>)
    requires
        old(channel).wf(),
    ensures
        final(channel).wf(),
        final(channel).inbound@ == old(channel).inbound@,
        final(channel).sent@.len() >= old(channel).sent@.len(),
        final(channel).sent@.subrange(0, old(channel).sent@.len() as int) == old(channel).sent@,
        ({
            let script = old(channel).inbound@;
            let pos = old(channel).pos as int;
            let sent = old(channel).sent@;
            let k = match_len(script, pos, cf_tags());
            match r {
                Ok(next) => tags_ok(script, pos, cf_tags()) && next.outer_state
                    == core.outer_state && final(channel).pos == pos + 2 && final(channel).sent@.len() == sent.len() + 2 && is_reply(
                    final(channel).sent@[sent.len() as int],
                    MsgTag::FollowerCf1,
                    core.outer_state@,
                    script[pos].payload@,
                ) && is_reply(
                    final(channel).sent@[sent.len() as int + 1],
                    MsgTag::FollowerCf2,
                    core.outer_state@,
                    script[pos + 1].payload@,
                ),
                Err(e) => !tags_ok(script, pos, cf_tags()) && e == spec_exchange_err(
                    script,
                    pos,
                    cf_tags(),
                ) && final(channel).sent@.len() == sent.len() + k && (k >= 1 ==> is_reply(
                    final(channel).sent@[sent.len() as int],
                    MsgTag::FollowerCf1,
                    core.outer_state@,
                    script[pos].payload@,
                )),
            }
        }),
{
    let ghost script = channel.inbound@;
    let ghost pos0 = channel.pos as int;
    let ghost sent0 = channel.sent@;
    proof {
        assert(cf_tags().drop_first() =~= seq![MsgTag::LeaderCf2]);
    }
    let m1 = match expect(channel, MsgTag::LeaderCf1) {
        Ok(p) => p,
        Err(e) => {
            proof {
                lemma_match_len_stop(script, pos0, cf_tags());
            }
            return Err(e);
        },
    };
    let (out1, core) = core.next(&m1);
    channel.send(PRFMessage { tag: MsgTag::FollowerCf1, payload: out1 });
    let m2 = match expect(channel, MsgTag::LeaderCf2) {
        Ok(p) => p,
        Err(e) => {
            proof {
                lemma_match_len_stop(script, pos0 + 1, cf_tags().drop_first());
                lemma_match_len_step(script, pos0, cf_tags());
                assert(channel.sent@.subrange(0, sent0.len() as int) =~= sent0);
            }
            return Err(e);
        },
    };
    let (out2, next) = core.next(&m2);
    channel.send(PRFMessage { tag: MsgTag::FollowerCf2, payload: out2 });
    proof {
        assert(cf_tags().drop_first().drop_first() =~= Seq::<MsgTag>::empty());
        lemma_match_len_empty(script, pos0 + 2, cf_tags().drop_first().drop_first());
        lemma_match_len_step(script, pos0 + 1, cf_tags().drop_first());
        lemma_match_len_step(script, pos0, cf_tags());
        assert(channel.sent@.subrange(0, sent0.len() as int) =~= sent0);
    }
    Ok(next)
}

/// Drives the two server-finished rounds: answers `LeaderSf1` and
/// `LeaderSf2`, the protocol's last messages.
#[verifier::rlimit(50)]
pub fn run_sf_phase(channel: &mut PRFChannel, core: Sf1Core) -> (r: Result<(), PRFError>)
    requires
        old(channel).wf(),
    ensures
        final(channel).wf(),
        final(channel).inbound@ == old(channel).inbound@,
        final(channel).sent@.len() >= old(channel).sent@.len(),
        final(channel).sent@.subrange(0, old(channel).sent@.len() as int) == old(channel).sent@,
        ({
            let script = old(channel).inbound@;
            let pos = old(channel).pos as int;
            let sent = old(channel).sent@;
            let k = match_len(script, pos, sf_tags());
            match r {
                Ok(u) => tags_ok(script, pos, sf_tags()) && final(channel).pos == pos + 2
                    && final(channel).sent@.len() == sent.len() + 2 && is_reply(
                    final(channel).sent@[sent.len() as int],
                    MsgTag::FollowerSf1,
                    core.outer_state@,
                    script[pos].payload@,
                ) && is_reply(
                    final(channel).sent@[sent.len() as int + 1],
                    MsgTag::FollowerSf2,
                    core.outer_state@,
                    script[pos + 1].payload@,
                ),
                Err(e) => !tags_ok(script, pos, sf_tags()) && e == spec_exchange_err(
                    script,
                    pos,
                    sf_tags(),
                ) && final(channel).sent@.len() == sent.len() + k && (k >= 1 ==> is_reply(
                    final(channel).sent@[sent.len() as int],
                    MsgTag::FollowerSf1,
                    core.outer_state@,
                    script[pos].payload@,
                )),
            }
        }),
{
    let ghost script = channel.inbound@;
    let ghost pos0 = channel.pos as int;
    let ghost sent0 = channel.sent@;
    proof {
        assert(sf_tags().drop_first() =~= seq![MsgTag::LeaderSf2]);
    }
    let m1 = match expect(channel, MsgTag::LeaderSf1) {
        Ok(p) => p,
        Err(e) => {
            proof {
                lemma_match_len_stop(script, pos0, sf_tags());
            }
            return Err(e);
        },
    };
    let (out1, core) = core.next(&m1);
    channel.send(PRFMessage { tag: MsgTag::FollowerSf1, payload: out1 });
    let m2 = match expect(channel, MsgTag::LeaderSf2) {
        Ok(p) => p,
        Err(e) => {
            proof {
                lemma_match_len_stop(script, pos0 + 1, sf_tags().drop_first());
                lemma_match_len_step(script, pos0, sf_tags());
                assert(channel.sent@.subrange(0, sent0.len() as int) =~= sent0);
            }
            return Err(e);
        },
    };
    let out2 = core.next(&m2);
    channel.send(PRFMessage { tag: MsgTag::FollowerSf2, payload: out2 });
    proof {
        assert(sf_tags().drop_first().drop_first() =~= Seq::<MsgTag>::empty());
        lemma_match_len_empty(script, pos0 + 2, sf_tags().drop_first().drop_first());
        lemma_match_len_step(script, pos0 + 1, sf_tags().drop_first());
        lemma_match_len_step(script, pos0, sf_tags());
        assert(channel.sent@.subrange(0, sent0.len() as int) =~= sent0);
    }
    Ok(())
}

/// Phase marker: master-secret derivation has not begun.
pub struct MasterSecret {
    pub core: Ms1Core,
}

/// Phase marker: session keys derived, client-finished exchange next.
pub struct ClientFinished {
    pub core: Cf1Core,
}

/// Phase marker: client finished done, server-finished exchange next.
pub struct ServerFinished {
    pub core: Sf1Core,
}

/// The follower: owns the channel and the circuit executor, and carries
/// the current phase. Consuming drivers move it from phase to phase.
pub struct PRFFollower<G: CircuitExecutor, S> {
    pub state: S,
    pub channel: PRFChannel,
    pub gc_exec: G,
}

impl<G: CircuitExecutor> PRFFollower<G, MasterSecret> {
    /// A follower at the start of the protocol.
    pub fn new(channel: PRFChannel, gc_exec: G) -> (f: PRFFollower<G, MasterSecret>)
        ensures
            f.channel == channel,
            f.gc_exec == gc_exec,
            f.state.core == (Ms1Core {  }),
    {
        PRFFollower { state: MasterSecret { core: Ms1Core::new() }, channel, gc_exec }
    }

    /// Runs `c1`, the master-secret rounds, `c2`, the key-expansion
    /// rounds, and `c3`; returns the key shares and the follower in the
    /// client-finished phase. Any deviation — a wrong tag, a closed
    /// stream, a circuit failure — consumes the follower and surfaces
    /// the tagged error.
    pub fn compute_session_keys(self, secret_share: P256SecretShare) -> (r: Result<
        (SessionKeyShares, PRFFollower<G, ClientFinished>),
        PRFError,
    >)
        requires
            self.channel.wf(),
        ensures
            ({
                let script = self.channel.inbound@;
                let pos = self.channel.pos as int;
                let sent = self.channel.sent@;
                match r {
                    Ok(pair) => tags_ok(script, pos, ms_ke_tags()) && pair.1.channel.wf()
                        && pair.1.channel.inbound@ == script && pair.1.channel.pos == pos + 5
                        && pair.1.channel.sent@.len() == sent.len() + 4
                        && pair.1.channel.sent@.subrange(0, sent.len() as int) == sent && (exists|
                        v1: [u32; 8],
                    |
                        is_reply(
                            pair.1.channel.sent@[sent.len() as int],
                            MsgTag::FollowerMs1,
                            v1@,
                            script[pos].payload@,
                        ) && is_reply(
                            pair.1.channel.sent@[sent.len() as int + 1],
                            MsgTag::FollowerMs2,
                            v1@,
                            script[pos + 1].payload@,
                        )) && is_reply(
                        pair.1.channel.sent@[sent.len() as int + 2],
                        MsgTag::FollowerKe1,
                        pair.1.state.core.outer_state@,
                        script[pos + 3].payload@,
                    ) && is_reply(
                        pair.1.channel.sent@[sent.len() as int + 3],
                        MsgTag::FollowerKe2,
                        pair.1.state.core.outer_state@,
                        script[pos + 4].payload@,
                    ),
                    Err(e) => (e is UnexpectedMessage || e is ConnectionAborted
                        || e is GarbledCircuit) && ((e is UnexpectedMessage
                        || e is ConnectionAborted) ==> (!tags_ok(script, pos, ms_ke_tags()) && (
                    if !tags_ok(script, pos, ms_tags()) {
                        e == spec_exchange_err(script, pos, ms_tags())
                    } else {
                        e == spec_exchange_err(script, pos + 3, ke_tags())
                    }))),
                }
            }),
    {
        let PRFFollower { state, mut channel, gc_exec: mut gc } = self;
        let ghost script = channel.inbound@;
        let ghost pos0 = channel.pos as int;
        let ghost sent0 = channel.sent@;
        let v1 = match gc.c1(&secret_share) {
            Ok(v) => v,
            Err(e) => {
                return Err(PRFError::GarbledCircuit(e));
            },
        };
        let done = match run_ms_phase(&mut channel, state.core, v1) {
            Ok(d) => d,
            Err(e) => {
                proof {
                    lemma_match_len_spec(script, pos0, ms_tags());
                    if tags_ok(script, pos0, ms_ke_tags()) {
                        lemma_tags_ok_split(script, pos0, ms_tags(), ke_tags());
                    }
                }
                return Err(e);
            },
        };
        let p2 = done.p2();
        let v2 = match gc.c2(&v1, &p2) {
            Ok(v) => v,
            Err(e) => {
                return Err(PRFError::GarbledCircuit(e));
            },
        };
        let ke_core = done.next(v2);
        let cf_core = match run_ke_phase(&mut channel, ke_core) {
            Ok(c) => c,
            Err(e) => {
                proof {
                    lemma_match_len_spec(script, pos0 + 3, ke_tags());
                    if tags_ok(script, pos0, ms_ke_tags()) {
                        lemma_tags_ok_split(script, pos0, ms_tags(), ke_tags());
                    }
                }
                return Err(e);
            },
        };
        let keys = match gc.c3(&v2) {
            Ok(k) => k,
            Err(e) => {
                return Err(PRFError::GarbledCircuit(e));
            },
        };
        proof {
            lemma_tags_ok_concat(script, pos0, ms_tags(), ke_tags());
            assert(channel.sent@.subrange(0, sent0.len() as int) =~= sent0);
            assert(is_reply(
                channel.sent@[sent0.len() as int],
                MsgTag::FollowerMs1,
                v1@,
                script[pos0].payload@,
            ));
        }
        Ok(
            (
                keys,
                PRFFollower { state: ClientFinished { core: cf_core }, channel, gc_exec: gc },
            ),
        )
    }
}

/// Matching prefixes compose: a full match of one tag sequence followed
/// by a full match of a second is a full match of their concatenation.
pub proof fn lemma_tags_ok_concat(
    script: Seq<PRFMessage>,
    pos: int,
    e1: Seq<MsgTag>,
    e2: Seq<MsgTag>,
)
    requires
        0 <= pos <= script.len(),
        tags_ok(script, pos, e1),
        tags_ok(script, pos + e1.len(), e2),
    ensures
        tags_ok(script, pos, e1 + e2),
    decreases e1.len(),
{
    if e1.len() == 0 {
        assert(e1 + e2 =~= e2);
    } else {
        lemma_match_len_spec(script, pos, e1);
        assert(script[pos].tag == e1[0]);
        assert(e1.drop_first().len() == e1.len() - 1);
        assert(match_len(script, pos, e1) == 1 + match_len(script, pos + 1, e1.drop_first()));
        lemma_tags_ok_concat(script, pos + 1, e1.drop_first(), e2);
        assert((e1 + e2).drop_first() =~= e1.drop_first() + e2);
        assert((e1 + e2)[0] == e1[0]);
        assert(match_len(script, pos, e1 + e2) == 1 + match_len(
            script,
            pos + 1,
            (e1 + e2).drop_first(),
        ));
    }
}

/// A full match of a concatenation splits: each part matches fully in
/// its place.
pub proof fn lemma_tags_ok_split(
    script: Seq<PRFMessage>,
    pos: int,
    e1: Seq<MsgTag>,
    e2: Seq<MsgTag>,
)
    requires
        0 <= pos <= script.len(),
        tags_ok(script, pos, e1 + e2),
    ensures
        tags_ok(script, pos, e1),
        tags_ok(script, pos + e1.len(), e2),
    decreases e1.len(),
{
    if e1.len() == 0 {
        assert(e1 + e2 =~= e2);
        assert(match_len(script, pos, e1) == 0);
    } else {
        lemma_match_len_spec(script, pos, e1 + e2);
        assert(script[pos].tag == (e1 + e2)[0]);
        assert((e1 + e2)[0] == e1[0]);
        lemma_match_len_step(script, pos, e1 + e2);
        assert((e1 + e2).drop_first() =~= e1.drop_first() + e2);
        lemma_tags_ok_split(script, pos + 1, e1.drop_first(), e2);
        lemma_match_len_step(script, pos, e1);
    }
}

impl<G: CircuitExecutor> PRFFollower<G, ClientFinished> {
    /// Computes the client-finished verify data with the leader and
    /// returns the follower in the server-finished phase.
    pub fn compute_client_finished(self) -> (r: Result<PRFFollower<G, ServerFinished>, PRFError>)
        requires
            self.channel.wf(),
        ensures
            ({
                let script = self.channel.inbound@;
                let pos = self.channel.pos as int;
                let sent = self.channel.sent@;
                let st = self.state.core.outer_state;
                match r {
                    Ok(next) => tags_ok(script, pos, cf_tags()) && next.state.core.outer_state
                        == st && next.gc_exec == self.gc_exec && next.channel.wf()
                        && next.channel.inbound@ == script
                        && next.channel.pos == pos + 2 && next.channel.sent@.len() == sent.len()
                        + 2 && next.channel.sent@.subrange(0, sent.len() as int) == sent
                        && is_reply(
                        next.channel.sent@[sent.len() as int],
                        MsgTag::FollowerCf1,
                        st@,
                        script[pos].payload@,
                    ) && is_reply(
                        next.channel.sent@[sent.len() as int + 1],
                        MsgTag::FollowerCf2,
                        st@,
                        script[pos + 1].payload@,
                    ),
                    Err(e) => !tags_ok(script, pos, cf_tags()) && e == spec_exchange_err(
                        script,
                        pos,
                        cf_tags(),
                    ),
                }
            }),
    {
        let PRFFollower { state, mut channel, gc_exec } = self;
        let next_core = match run_cf_phase(&mut channel, state.core) {
            Ok(c) => c,
            Err(e) => {
                return Err(e);
            },
        };
        Ok(PRFFollower { state: ServerFinished { core: next_core }, channel, gc_exec })
    }
}

impl<G: CircuitExecutor> PRFFollower<G, ServerFinished> {
    /// Computes the server-finished verify data with the leader and
    /// consumes the follower; channel and executor are released with it.
    pub fn compute_server_finished(self) -> (r: Result<(), PRFError>)
        requires
            self.channel.wf(),
        ensures
            ({
                let script = self.channel.inbound@;
                let pos = self.channel.pos as int;
                match r {
                    Ok(u) => tags_ok(script, pos, sf_tags()),
                    Err(e) => !tags_ok(script, pos, sf_tags()) && e == spec_exchange_err(
                        script,
                        pos,
                        sf_tags(),
                    ),
                }
            }),
    {
        let PRFFollower { state, mut channel, gc_exec } = self;
        match run_sf_phase(&mut channel, state.core) {
            Ok(u) => Ok(()),
            Err(e) => Err(e),
        }
    }
}

} // verus!
