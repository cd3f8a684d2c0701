use notary_prf::error::{BadProverReason, ConfigIssue, NotaryServerError, PRFError};
use notary_prf::session::{
    build_verifier_config, initialize, select_protocol_upgrade, upgrade_session,
    ClientType, NotarizationProperties, NotarizationSessionRequest, NotaryGlobals,
    NotarySigningKey, ProtocolUpgrade, SessionStore,
};

fn globals_with_ceiling(ceiling: usize) -> NotaryGlobals {
    NotaryGlobals::new(
        NotarySigningKey { bytes: [7u8; 32] },
        NotarizationProperties { max_transcript_size: ceiling },
        None,
    )
}

fn request(max_sent: Option<usize>, max_recv: Option<usize>) -> NotarizationSessionRequest {
    NotarizationSessionRequest {
        client_type: ClientType::Tcp,
        max_sent_data: max_sent,
        max_recv_data: max_recv,
        message: Some("intent".to_string()),
    }
}

#[test]
fn oversize_request_is_rejected_before_any_session_is_created() {
    let mut globals = globals_with_ceiling(1 << 20);
    let r = initialize(&mut globals, request(Some(1 << 30), Some(1 << 30)), 1, 0);
    assert_eq!(
        r,
        Err(NotaryServerError::BadProverRequest(BadProverReason::MaxTranscriptSizeExceeded))
    );
    assert!(globals.store.entries.is_empty());
    assert_eq!(
        BadProverReason::MaxTranscriptSizeExceeded.message(),
        "Max transcript size requested exceeds the maximum threshold"
    );
}

#[test]
fn request_at_the_ceiling_is_accepted() {
    let mut globals = globals_with_ceiling(1 << 20);
    let r = initialize(&mut globals, request(Some(1 << 19), Some(1 << 19)), 2, 5);
    assert_eq!(r, Ok(()));
    assert_eq!(globals.store.entries.len(), 1);
    assert_eq!(globals.store.entries[0].0, 2);
    assert_eq!(globals.store.entries[0].1.created_at, 5);
}

#[test]
fn request_without_bounds_is_never_size_checked() {
    let mut globals = globals_with_ceiling(0);
    let r = initialize(&mut globals, request(None, None), 3, 0);
    assert_eq!(r, Ok(()));
    assert_eq!(globals.store.entries.len(), 1);
}

#[test]
fn replay_of_a_session_id_is_rejected() {
    let mut globals = globals_with_ceiling(1 << 20);
    initialize(&mut globals, request(Some(16), Some(16)), 42, 100).unwrap();
    let first = upgrade_session(&mut globals, 42);
    let data = first.expect("first upgrade must find the session");
    assert_eq!(data.max_sent_data, Some(16));
    assert_eq!(data.message, Some("intent".to_string()));
    let second = upgrade_session(&mut globals, 42);
    assert_eq!(
        second,
        Err(NotaryServerError::BadProverRequest(BadProverReason::SessionIdNotFound))
    );
    assert_eq!(BadProverReason::SessionIdNotFound.message(), "Session id does not exist");
}

#[test]
fn unknown_session_id_is_rejected() {
    let mut globals = globals_with_ceiling(1 << 20);
    let r = upgrade_session(&mut globals, 9999);
    assert_eq!(
        r,
        Err(NotaryServerError::BadProverRequest(BadProverReason::SessionIdNotFound))
    );
}

#[test]
fn store_insert_and_remove_are_inverse() {
    let mut store = SessionStore::new();
    let mut globals = globals_with_ceiling(1 << 20);
    initialize(&mut globals, request(None, None), 7, 1).unwrap();
    initialize(&mut globals, request(None, None), 8, 2).unwrap();
    assert_eq!(globals.store.entries.len(), 2);
    assert!(upgrade_session(&mut globals, 7).is_ok());
    assert_eq!(globals.store.entries.len(), 1);
    assert!(upgrade_session(&mut globals, 8).is_ok());
    assert!(globals.store.entries.is_empty());
    assert!(store.remove(7).is_none());
}

#[test]
fn missing_bound_message_is_a_config_error() {
    let r = build_verifier_config("sid".to_string(), None, Some(16), Some(16));
    assert_eq!(r, Err(PRFError::ConfigError(ConfigIssue::MissingBoundMessage)));
}

#[test]
fn empty_bound_message_is_a_config_error() {
    let r = build_verifier_config("sid".to_string(), Some(Vec::new()), None, None);
    assert_eq!(r, Err(PRFError::ConfigError(ConfigIssue::EmptyBoundMessage)));
}

#[test]
fn present_bound_message_builds_the_config() {
    let r = build_verifier_config("sid".to_string(), Some(vec![1, 2, 3]), Some(4), None)
        .expect("non-empty bound message must be accepted");
    assert_eq!(r.session_id, "sid");
    assert_eq!(r.bound_message, vec![1, 2, 3]);
    assert_eq!(r.max_sent_data, Some(4));
    assert_eq!(r.max_recv_data, None);
}

#[test]
fn malformed_request_reason_has_its_message() {
    assert_eq!(
        BadProverReason::MalformedRequest.message(),
        "Malformed payload submitted for initializing notarization"
    );
}

#[test]
fn upgrade_header_selects_the_protocol() {
    let ws = b"websocket".to_vec();
    let ws_mixed = b"WebSocket".to_vec();
    let tcp = b"TCP".to_vec();
    let other = b"smtp".to_vec();
    assert_eq!(select_protocol_upgrade(Some(&ws)), Ok(ProtocolUpgrade::Ws));
    assert_eq!(select_protocol_upgrade(Some(&ws_mixed)), Ok(ProtocolUpgrade::Ws));
    assert_eq!(select_protocol_upgrade(Some(&tcp)), Ok(ProtocolUpgrade::Tcp));
    assert_eq!(
        select_protocol_upgrade(Some(&other)),
        Err(NotaryServerError::BadProverRequest(BadProverReason::UpgradeHeaderNotSet))
    );
    assert_eq!(
        select_protocol_upgrade(None),
        Err(NotaryServerError::BadProverRequest(BadProverReason::UpgradeHeaderNotSet))
    );
    assert_eq!(
        BadProverReason::UpgradeHeaderNotSet.message(),
        "Upgrade header is not set for client"
    );
}
