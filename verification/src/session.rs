//! Session initialization: request validation, the one-shot session
//! store, and the follower-side verifier configuration. The HTTP and
//! socket plumbing around these rules lives in the embedding; every rule
//! itself is here.

use vstd::prelude::*;
use crate::error::{BadProverReason, ConfigIssue, NotaryServerError, PRFError};

verus! {

/// Types of client that the prover is using.
#[derive(Clone, Copy, Debug, PartialEq, Eq, Structural)]
pub enum ClientType {
    /// Client that has access to the transport layer.
    Tcp,
    /// Client that cannot directly access the transport layer, e.g. a
    /// browser extension.
    Websocket,
}

/// Request object of the session endpoint.
#[derive(Clone, Debug, PartialEq, Eq)]
pub struct NotarizationSessionRequest {
    pub client_type: ClientType,
    /// Maximum data that can be sent by the prover.
    pub max_sent_data: Option<usize>,
    /// Maximum data that can be received by the prover.
    pub max_recv_data: Option<usize>,
    /// Message to sign.
    pub message: Option<String>,
}

/// Response object of the session endpoint.
#[derive(Clone, Debug, PartialEq, Eq)]
pub struct NotarizationSessionResponse {
    /// Unique session id that is generated by the notary and shared with
    /// the prover.
    pub session_id: String,
}

/// Request query of the notarization endpoint.
#[derive(Clone, Debug, PartialEq, Eq)]
pub struct NotarizationRequestQuery {
    /// Session id that was returned from the session endpoint.
    pub session_id: String,
}

/// Session configuration data held between the two endpoints.
#[derive(Clone, Debug, PartialEq, Eq)]
pub struct SessionData {
    pub max_sent_data: Option<usize>,
    pub max_recv_data: Option<usize>,
    /// Seconds since the epoch at allocation time, as the embedding's
    /// clock reported them.
    pub created_at: i64,
    pub message: Option<String>,
}

/// Notarization limits configured for the server.
#[derive(Clone, Copy, Debug, PartialEq, Eq)]
pub struct NotarizationProperties {
    /// Global ceiling on `max_sent_data + max_recv_data`.
    pub max_transcript_size: usize,
}

/// The notary's signing key, as the opaque scalar bytes the logic
/// carries; the embedding converts to and from its curve library's key
/// type.
#[derive(Clone, Debug, PartialEq, Eq)]
pub struct NotarySigningKey {
    pub bytes: [u8; 32],
}

/// One record of the optional API-key whitelist.
#[derive(Clone, Debug, PartialEq, Eq)]
pub struct AuthorizationWhitelistRecord {
    pub name: String,
    pub api_key: String,
    pub created_at: String,
}

/// No two entries share a session id.
pub open spec fn keys_unique(s: Seq<(u128, SessionData)>) -> bool {
    forall|i: int, j: int| 0 <= i < j < s.len() ==> s[i].0 != s[j].0
}

/// Some entry carries the given session id.
pub open spec fn store_contains(s: Seq<(u128, SessionData)>, id: u128) -> bool {
    exists|i: int| 0 <= i < s.len() && s[i].0 == id
}

/// The one-shot session store: a session id is inserted once at
/// allocation and removed on its first use; nothing else touches it.
pub struct SessionStore {
    pub entries: Vec<(u128, SessionData)>,
}

impl SessionStore {
    /// Ids are unique, so removal of an id leaves no trace of it.
    pub open spec fn wf(&self) -> bool {
        keys_unique(self.entries@)
    }

    /// An empty store.
    pub fn new() -> (s: SessionStore)
        ensures
            s.entries@ == Seq::<(u128, SessionData)>::empty(),
            s.wf(),
    {
        SessionStore { entries: Vec::new() }
    }

    /// Removes and returns the data stored under `id`, if any. After a
    /// successful removal the id is gone: a second call returns `None`.
    #[verifier::loop_isolation(false)]
    pub fn remove(&mut self, id: u128) -> (r: Option<SessionData>)
        requires
            old(self).wf(),
        ensures
            final(self).wf(),
            (r is Some) == store_contains(old(self).entries@, id),
            r is None ==> final(self).entries@ == old(self).entries@,
            r matches Some(d) ==> exists|i: int|
                0 <= i < old(self).entries@.len() && old(self).entries@[i] == (id, d) && final(self).entries@ == old(self).entries@.remove(i),
            r is Some ==> final(self).entries@.len() == old(self).entries@.len() - 1,
            !store_contains(final(self).entries@, id),
    {
        let ghost s0 = self.entries@;
        let mut i: usize = 0;
        while i < self.entries.len()
            invariant
                i <= self.entries@.len(),
                self.entries@ == s0,
                keys_unique(s0),
                forall|j: int| 0 <= j < i ==> s0[j].0 != id,
            decreases self.entries@.len() - i,
        {
            if self.entries[i].0 == id {
                let entry = self.entries.remove(i);
                proof {
                    assert(s0[i as int].0 == id);
                    assert forall|j: int|
                        0 <= j < self.entries@.len() implies self.entries@[j].0 != id by {
                        if j < i {
                            assert(self.entries@[j] == s0[j]);
                        } else {
                            assert(self.entries@[j] == s0[j + 1]);
                            assert(s0[i as int].0 != s0[j + 1].0);
                        }
                    }
                    assert(keys_unique(self.entries@)) by {
                        assert forall|m: int, n: int|
                            0 <= m < n < self.entries@.len() implies self.entries@[m].0
                            != self.entries@[n].0 by {
                            let m0: int = if m < i { m } else { m + 1 };
                            let n0: int = if n < i { n } else { n + 1 };
                            assert(self.entries@[m] == s0[m0]);
                            assert(self.entries@[n] == s0[n0]);
                        }
                    }
                    assert(s0[i as int] == (id, entry.1));
                    assert(self.entries@ == s0.remove(i as int));
                    assert(store_contains(s0, id)) by {
                        assert(0 <= (i as int) && (i as int) < s0.len() && s0[i as int].0 == id);
                    }
                    assert(0 <= (i as int) && (i as int) < s0.len() && s0[i as int] == (
                        id,
                        entry.1,
                    ) && self.entries@ == s0.remove(i as int));
                }
                return Some(entry.1);
            }
            i += 1;
        }
        None
    }

    /// Stores `data` under `id`; an existing entry under the same id is
    /// replaced, as the allocation endpoint never reuses ids.
    pub fn insert(&mut self, id: u128, data: SessionData)
        requires
            old(self).wf(),
        ensures
            final(self).wf(),
            store_contains(final(self).entries@, id),
            final(self).entries@.last() == (id, data),
            !store_contains(old(self).entries@, id) ==> final(self).entries@ == old(
                self,
            ).entries@.push((id, data)),
    {
        let _previous = self.remove(id);
        let ghost mid = self.entries@;
        self.entries.push((id, data));
        proof {
            assert forall|m: int, n: int|
                0 <= m < n < self.entries@.len() implies self.entries@[m].0
                != self.entries@[n].0 by {
                if n < self.entries@.len() - 1 {
                    assert(self.entries@[m] == mid[m] && self.entries@[n] == mid[n]);
                } else {
                    assert(self.entries@[n] == (id, data));
                    assert(self.entries@[m] == mid[m]);
                    assert(!store_contains(mid, id));
                }
            }
            assert(store_contains(self.entries@, id)) by {
                assert(self.entries@[self.entries@.len() - 1].0 == id);
            }
        }
    }
}

/// Law: the store is one-shot. Once the entry holding a session id has
/// been removed, no entry with that id remains, so a later upgrade
/// request with the same id is refused (removal fails exactly when the id
/// is absent).
pub proof fn lemma_session_replay_rejected(s: Seq<(u128, SessionData)>, id: u128, i: int)
    requires
        keys_unique(s),
        0 <= i < s.len(),
        s[i].0 == id,
    ensures
        !store_contains(s.remove(i), id),
{
    let t = s.remove(i);
    assert forall|j: int| 0 <= j < t.len() implies t[j].0 != id by {
        if j < i {
            assert(t[j] == s[j]);
        } else {
            assert(t[j] == s[j + 1]);
            assert(s[i].0 != s[j + 1].0);
        }
    }
}

/// Global data shared by the endpoint handlers.
pub struct NotaryGlobals {
    pub notary_signing_key: NotarySigningKey,
    pub notarization_config: NotarizationProperties,
    /// Temporary storage of per-session configuration data.
    pub store: SessionStore,
    /// Whitelist of API keys for authorization purposes.
    pub authorization_whitelist: Option<Vec<AuthorizationWhitelistRecord>>,
}

impl NotaryGlobals {
    /// Fresh globals with an empty session store.
    pub fn new(
        notary_signing_key: NotarySigningKey,
        notarization_config: NotarizationProperties,
        authorization_whitelist: Option<Vec<AuthorizationWhitelistRecord>>,
    ) -> (g: NotaryGlobals)
        ensures
            g.notary_signing_key == notary_signing_key,
            g.notarization_config == notarization_config,
            g.store.entries@ == Seq::<(u128, SessionData)>::empty(),
            g.store.wf(),
            g.authorization_whitelist == authorization_whitelist,
    {
        NotaryGlobals {
            notary_signing_key,
            notarization_config,
            store: SessionStore::new(),
            authorization_whitelist,
        }
    }
}

/// The transcript size a request asks for: absent bounds count as zero.
pub open spec fn spec_requested_size(request: NotarizationSessionRequest) -> int {
    (match request.max_sent_data {
        Some(n) => n as int,
        None => 0,
    }) + (match request.max_recv_data {
        Some(n) => n as int,
        None => 0,
    })
}

/// A request exceeds the ceiling when it names at least one bound and the
/// two bounds together pass the configured maximum. A request that names
/// no bound is never checked.
pub open spec fn spec_size_exceeded(request: NotarizationSessionRequest, ceiling: usize) -> bool {
    (request.max_sent_data is Some || request.max_recv_data is Some) && spec_requested_size(
        request,
    ) > ceiling
}

/// Validates a session request against the configured transcript-size
/// ceiling and, if it passes, stores its configuration under the freshly
/// allocated id. Nothing is stored for a rejected request.
pub fn initialize(
    globals: &mut NotaryGlobals,
    request: NotarizationSessionRequest,
    new_id: u128,
    now: i64,
) -> (r: Result<(), NotaryServerError>)
    requires
        old(globals).store.wf(),
    ensures
        final(globals).store.wf(),
        final(globals).notary_signing_key == old(globals).notary_signing_key,
        final(globals).notarization_config == old(globals).notarization_config,
        final(globals).authorization_whitelist == old(globals).authorization_whitelist,
        (r is Err) == spec_size_exceeded(request, old(globals).notarization_config.max_transcript_size),
        r is Err ==> r == Err::<(), NotaryServerError>(
            NotaryServerError::BadProverRequest(BadProverReason::MaxTranscriptSizeExceeded),
        ) && final(globals).store.entries@ == old(globals).store.entries@,
        r is Ok ==> final(globals).store.entries@.last() == (
            new_id,
            SessionData {
                max_sent_data: request.max_sent_data,
                max_recv_data: request.max_recv_data,
                created_at: now,
                message: request.message,
            },
        ),
        r is Ok && !store_contains(old(globals).store.entries@, new_id) ==> final(globals).store.entries@ == old(globals).store.entries@.push(
            (
                new_id,
                SessionData {
                    max_sent_data: request.max_sent_data,
                    max_recv_data: request.max_recv_data,
                    created_at: now,
                    message: request.message,
                },
            ),
        ),
{
    if request.max_sent_data.is_some() || request.max_recv_data.is_some() {
        let sent: usize = match request.max_sent_data {
            Some(n) => n,
            None => 0,
        };
        let recv: usize = match request.max_recv_data {
            Some(n) => n,
            None => 0,
        };
        let exceeded: bool = match sent.checked_add(recv) {
            Some(total) => total > globals.notarization_config.max_transcript_size,
            None => true,
        };
        if exceeded {
            return Err(
                NotaryServerError::BadProverRequest(BadProverReason::MaxTranscriptSizeExceeded),
            );
        }
    }
    let data = SessionData {
        max_sent_data: request.max_sent_data,
        max_recv_data: request.max_recv_data,
        created_at: now,
        message: request.message,
    };
    globals.store.insert(new_id, data);
    Ok(())
}

/// Fetches and removes the configuration stored under a session id, as
/// the upgrade endpoint does: the first upgrade for an id consumes it,
/// any later one is refused as a bad prover request.
pub fn upgrade_session(globals: &mut NotaryGlobals, session_id: u128) -> (r: Result<
    SessionData,
    NotaryServerError,
>)
    requires
        old(globals).store.wf(),
    ensures
        final(globals).store.wf(),
        final(globals).notary_signing_key == old(globals).notary_signing_key,
        final(globals).notarization_config == old(globals).notarization_config,
        final(globals).authorization_whitelist == old(globals).authorization_whitelist,
        (r is Ok) == store_contains(old(globals).store.entries@, session_id),
        r matches Ok(d) ==> exists|i: int|
            0 <= i < old(globals).store.entries@.len() && old(globals).store.entries@[i] == (
                session_id,
                d,
            ) && final(globals).store.entries@ == old(globals).store.entries@.remove(i),
        !store_contains(final(globals).store.entries@, session_id),
        r is Err ==> r == Err::<SessionData, NotaryServerError>(
            NotaryServerError::BadProverRequest(BadProverReason::SessionIdNotFound),
        ) && final(globals).store.entries@ == old(globals).store.entries@,
    {
    match globals.store.remove(session_id) {
        Some(data) => Ok(data),
        None => Err(NotaryServerError::BadProverRequest(BadProverReason::SessionIdNotFound)),
    }
}

/// Which kind of connection upgrade the prover asked for; the embedding
/// turns this into the matching socket upgrade.
#[derive(Clone, Copy, Debug, PartialEq, Eq, Structural)]
pub enum ProtocolUpgrade {
    /// Plain TCP upgrade, for clients with transport-layer access.
    Tcp,
    /// WebSocket upgrade, for clients without it.
    Ws,
}

/// ASCII lower-casing of one byte.
pub open spec fn spec_lower_byte(c: u8) -> u8 {
    if 65 <= c <= 90 {
        (c + 32) as u8
    } else {
        c
    }
}

/// ASCII lower-casing of a byte string.
pub open spec fn spec_lower_bytes(s: Seq<u8>) -> Seq<u8> {
    Seq::new(s.len(), |i: int| spec_lower_byte(s[i]))
}

/// The bytes of the websocket upgrade token.
pub open spec fn spec_websocket_token() -> Seq<u8> {
    seq![119u8, 101u8, 98u8, 115u8, 111u8, 99u8, 107u8, 101u8, 116u8]
}

/// The bytes of the tcp upgrade token.
pub open spec fn spec_tcp_token() -> Seq<u8> {
    seq![116u8, 99u8, 112u8]
}

fn matches_token_ignore_case(value: &[u8], token: &[u8]) -> (r: bool)
    ensures
        r == (spec_lower_bytes(value@) == token@),
{
    if value.len() != token.len() {
        proof {
            assert(spec_lower_bytes(value@).len() == value@.len());
        }
        return false;
    }
    let mut i: usize = 0;
    while i < value.len()
        invariant
            i <= value@.len(),
            value@.len() == token@.len(),
            forall|j: int| 0 <= j < i ==> spec_lower_byte(value@[j]) == token@[j],
        decreases value@.len() - i,
    {
        let c = value[i];
        let lowered: u8 = if 65 <= c && c <= 90 {
            c + 32
        } else {
            c
        };
        if lowered != token[i] {
            proof {
                assert(spec_lower_bytes(value@)[i as int] != token@[i as int]);
            }
            return false;
        }
        i += 1;
    }
    proof {
        assert(spec_lower_bytes(value@) =~= token@);
    }
    true
}

/// Chooses the upgrade kind from the request's upgrade header, compared
/// case-insensitively: `websocket` upgrades to WebSocket, `tcp` to plain
/// TCP, and a missing or unknown value is refused as a bad prover
/// request.
pub fn select_protocol_upgrade(upgrade_header: Option<&Vec<u8>>) -> (r: Result<
    ProtocolUpgrade,
    NotaryServerError,
>)
    ensures
        ({
            match upgrade_header {
                Some(h) => {
                    if spec_lower_bytes(h@) == spec_websocket_token() {
                        r == Ok::<ProtocolUpgrade, NotaryServerError>(ProtocolUpgrade::Ws)
                    } else if spec_lower_bytes(h@) == spec_tcp_token() {
                        r == Ok::<ProtocolUpgrade, NotaryServerError>(ProtocolUpgrade::Tcp)
                    } else {
                        r == Err::<ProtocolUpgrade, NotaryServerError>(
                            NotaryServerError::BadProverRequest(
                                BadProverReason::UpgradeHeaderNotSet,
                            ),
                        )
                    }
                },
                None => r == Err::<ProtocolUpgrade, NotaryServerError>(
                    NotaryServerError::BadProverRequest(BadProverReason::UpgradeHeaderNotSet),
                ),
            }
        }),
{
    let header = match upgrade_header {
        Some(h) => h,
        None => {
            return Err(
                NotaryServerError::BadProverRequest(BadProverReason::UpgradeHeaderNotSet),
            );
        },
    };
    let websocket_token: [u8; 9] = [119, 101, 98, 115, 111, 99, 107, 101, 116];
    let tcp_token: [u8; 3] = [116, 99, 112];
    proof {
        assert(websocket_token@ =~= spec_websocket_token());
        assert(tcp_token@ =~= spec_tcp_token());
    }
    if matches_token_ignore_case(header.as_slice(), websocket_token.as_slice()) {
        Ok(ProtocolUpgrade::Ws)
    } else if matches_token_ignore_case(header.as_slice(), tcp_token.as_slice()) {
        Ok(ProtocolUpgrade::Tcp)
    } else {
        Err(NotaryServerError::BadProverRequest(BadProverReason::UpgradeHeaderNotSet))
    }
}

/// Follower-side verifier configuration, assembled before the state
/// machine is entered: the session id is stamped in, the bound message is
/// required and must be non-empty, and the transcript bounds are carried
/// through unchanged.
#[derive(Clone, Debug, PartialEq, Eq)]
pub struct VerifierSessionConfig {
    pub session_id: String,
    pub bound_message: Vec<u8>,
    pub max_sent_data: Option<usize>,
    pub max_recv_data: Option<usize>,
}

/// Builds the verifier configuration. A missing bound message and an
/// empty bound message are each rejected before the state machine is
/// reached; everything else is accepted as it stands.
pub fn build_verifier_config(
    session_id: String,
    message: Option<Vec<u8>>,
    max_sent_data: Option<usize>,
    max_recv_data: Option<usize>,
) -> (r: Result<VerifierSessionConfig, PRFError>)
    ensures
        ({
            match message {
                None => r == Err::<VerifierSessionConfig, PRFError>(
                    PRFError::ConfigError(ConfigIssue::MissingBoundMessage),
                ),
                Some(m) => {
                    if m@.len() == 0 {
                        r == Err::<VerifierSessionConfig, PRFError>(
                            PRFError::ConfigError(ConfigIssue::EmptyBoundMessage),
                        )
                    } else {
                        r matches Ok(c) && c.session_id@ == session_id@ && c.bound_message@
                            == m@ && c.max_sent_data == max_sent_data && c.max_recv_data
                            == max_recv_data
                    }
                },
            }
        }),
{
    let bound_message = match message {
        Some(m) => m,
        None => {
            return Err(PRFError::ConfigError(ConfigIssue::MissingBoundMessage));
        },
    };
    if bound_message.len() == 0 {
        return Err(PRFError::ConfigError(ConfigIssue::EmptyBoundMessage));
    }
    Ok(VerifierSessionConfig { session_id, bound_message, max_sent_data, max_recv_data })
}

} // verus!
