use notary_prf::channel::PRFChannel;
use notary_prf::error::{CircuitError, PRFError};
use notary_prf::executor::{CircuitExecutor, P256SecretShare, SessionKeyShares};
use notary_prf::follower::{run_ms_phase, run_sf_phase, PRFFollower};
use notary_prf::msg::{MsgTag, PRFMessage};
use notary_prf::prf_core::{Ms1Core, Sf1Core};
use notary_prf::sha256::{hmac_outer_state, outer_hash, sha256_compress, sha256_iv, state_to_bytes};

/// Reference SHA-256 over arbitrary input, built on the library's
/// verified compression function.
fn ref_sha256(msg: &[u8]) -> [u8; 32] {
    let mut data = msg.to_vec();
    let bit_len = (msg.len() as u64) * 8;
    data.push(0x80);
    while data.len() % 64 != 56 {
        data.push(0);
    }
    data.extend_from_slice(&bit_len.to_be_bytes());
    let mut state = sha256_iv();
    for chunk in data.chunks(64) {
        let mut block = [0u8; 64];
        block.copy_from_slice(chunk);
        state = sha256_compress(&state, &block);
    }
    state_to_bytes(&state)
}

fn pad_block(key: &[u8], pad: u8) -> [u8; 64] {
    assert!(key.len() <= 64);
    let mut block = [pad; 64];
    for (i, b) in key.iter().enumerate() {
        block[i] ^= *b;
    }
    block
}

/// The leader's half of one HMAC evaluation: the inner hash.
fn inner_hash(key: &[u8], data: &[u8]) -> [u8; 32] {
    let mut buf = pad_block(key, 0x36).to_vec();
    buf.extend_from_slice(data);
    ref_sha256(&buf)
}

/// Reference HMAC-SHA-256.
fn ref_hmac(key: &[u8], data: &[u8]) -> [u8; 32] {
    let mut buf = pad_block(key, 0x5c).to_vec();
    buf.extend_from_slice(&inner_hash(key, data));
    ref_sha256(&buf)
}

fn concat(a: &[u8], b: &[u8]) -> Vec<u8> {
    let mut v = a.to_vec();
    v.extend_from_slice(b);
    v
}

fn hex(bytes: &[u8]) -> String {
    let mut s = String::new();
    for b in bytes {
        s.push_str(&format!("{:02x}", b));
    }
    s
}

#[test]
fn sha256_matches_the_standard_test_vector() {
    assert_eq!(
        hex(&ref_sha256(b"abc")),
        "ba7816bf8f01cfea414140de5dae2223b00361a396177a9cb410ff61f20015ad"
    );
    assert_eq!(
        hex(&ref_sha256(b"")),
        "e3b0c44298fc1c149afbf4c8996fb92427ae41e4649b934ca495991b7852b855"
    );
}

#[test]
fn outer_hash_finalises_hmac_like_the_reference() {
    // HMAC-SHA-256 test vector: 20 bytes of 0x0b as key, "Hi There".
    let key = [0x0bu8; 20];
    let expected = "b0344c61d8db38535ca8afceaf0bf12b881dc200c9833da726e9376c2e32cff7";
    assert_eq!(hex(&ref_hmac(&key, b"Hi There")), expected);
    let outer_state = hmac_outer_state(&key);
    let inner = inner_hash(&key, b"Hi There");
    assert_eq!(hex(&outer_hash(&outer_state, &inner)), expected);
}

/// Everything the leader would derive for one fixed session, computed
/// with the reference implementation alone.
struct Schedule {
    pms: Vec<u8>,
    ms: Vec<u8>,
    seed_ms: Vec<u8>,
    seed_ke: Vec<u8>,
    seed_cf: Vec<u8>,
    seed_sf: Vec<u8>,
    a1: [u8; 32],
    a2: [u8; 32],
    p2: [u8; 32],
    ka1: [u8; 32],
    ka2: [u8; 32],
    key_block: Vec<u8>,
    cf_a1: [u8; 32],
    cf_p1: [u8; 32],
    sf_a1: [u8; 32],
    sf_p1: [u8; 32],
}

fn schedule() -> Schedule {
    let pms = vec![0x0b; 32];
    let seed_ms = concat(b"master secret", &[0x11; 64]);
    let a1 = ref_hmac(&pms, &seed_ms);
    let a2 = ref_hmac(&pms, &a1);
    let p1 = ref_hmac(&pms, &concat(&a1, &seed_ms));
    let p2 = ref_hmac(&pms, &concat(&a2, &seed_ms));
    let ms = concat(&p1, &p2[..16]);
    let seed_ke = concat(b"key expansion", &[0x22; 64]);
    let ka1 = ref_hmac(&ms, &seed_ke);
    let ka2 = ref_hmac(&ms, &ka1);
    let kb1 = ref_hmac(&ms, &concat(&ka1, &seed_ke));
    let kb2 = ref_hmac(&ms, &concat(&ka2, &seed_ke));
    let key_block = concat(&kb1, &kb2[..8]);
    let seed_cf = concat(b"client finished", &[0x33; 32]);
    let cf_a1 = ref_hmac(&ms, &seed_cf);
    let cf_p1 = ref_hmac(&ms, &concat(&cf_a1, &seed_cf));
    let seed_sf = concat(b"server finished", &[0x44; 32]);
    let sf_a1 = ref_hmac(&ms, &seed_sf);
    let sf_p1 = ref_hmac(&ms, &concat(&sf_a1, &seed_sf));
    Schedule {
        pms,
        ms,
        seed_ms,
        seed_ke,
        seed_cf,
        seed_sf,
        a1,
        a2,
        p2,
        ka1,
        ka2,
        key_block,
        cf_a1,
        cf_p1,
        sf_a1,
        sf_p1,
    }
}

/// Insecure executor for driving the orchestrator: it evaluates the PRF
/// directly from the known secrets and hands the follower the whole
/// key-schedule output as its share (the leader's share being zero).
struct MockExecutor {
    sched: Schedule,
    fail_c2: bool,
    leader_share_zero: bool,
}

impl CircuitExecutor for MockExecutor {
    fn c1(&mut self, _secret_share: &P256SecretShare) -> Result<[u32; 8], CircuitError> {
        Ok(hmac_outer_state(&self.sched.pms))
    }

    fn c2(&mut self, _outer_state: &[u32; 8], p2: &[u8; 32]) -> Result<[u32; 8], CircuitError> {
        if self.fail_c2 {
            return Err(CircuitError::ExecutionFailed);
        }
        assert_eq!(p2, &self.sched.p2, "core must hand c2 the reference p2");
        Ok(hmac_outer_state(&self.sched.ms))
    }

    fn c3(&mut self, _outer_state: &[u32; 8]) -> Result<SessionKeyShares, CircuitError> {
        assert!(self.leader_share_zero);
        let kb = &self.sched.key_block;
        let mut client_write_key = [0u8; 16];
        let mut server_write_key = [0u8; 16];
        let mut client_write_iv = [0u8; 4];
        let mut server_write_iv = [0u8; 4];
        client_write_key.copy_from_slice(&kb[0..16]);
        server_write_key.copy_from_slice(&kb[16..32]);
        client_write_iv.copy_from_slice(&kb[32..36]);
        server_write_iv.copy_from_slice(&kb[36..40]);
        Ok(SessionKeyShares { client_write_key, server_write_key, client_write_iv, server_write_iv })
    }
}

fn leader(tag: MsgTag, payload: [u8; 32]) -> PRFMessage {
    PRFMessage { tag, payload }
}

fn full_script(s: &Schedule) -> Vec<PRFMessage> {
    vec![
        leader(MsgTag::LeaderMs1, inner_hash(&s.pms, &s.seed_ms)),
        leader(MsgTag::LeaderMs2, inner_hash(&s.pms, &s.a1)),
        leader(MsgTag::LeaderMs3, inner_hash(&s.pms, &concat(&s.a2, &s.seed_ms))),
        leader(MsgTag::LeaderKe1, inner_hash(&s.ms, &s.seed_ke)),
        leader(MsgTag::LeaderKe2, inner_hash(&s.ms, &s.ka1)),
        leader(MsgTag::LeaderCf1, inner_hash(&s.ms, &s.seed_cf)),
        leader(MsgTag::LeaderCf2, inner_hash(&s.ms, &concat(&s.cf_a1, &s.seed_cf))),
        leader(MsgTag::LeaderSf1, inner_hash(&s.ms, &s.seed_sf)),
        leader(MsgTag::LeaderSf2, inner_hash(&s.ms, &concat(&s.sf_a1, &s.seed_sf))),
    ]
}

fn mock(fail_c2: bool) -> MockExecutor {
    MockExecutor { sched: schedule(), fail_c2, leader_share_zero: true }
}

#[test]
fn happy_path_derives_the_reference_key_schedule() {
    let s = schedule();
    let follower = PRFFollower::new(PRFChannel::new(full_script(&s)), mock(false));
    // An all-zero secret share is accepted; the circuits decide validity.
    let share = P256SecretShare { bytes: [0u8; 32] };
    let (keys, follower) = follower.compute_session_keys(share).expect("session keys");
    // Leader shares are zero, so the xor of the two sides is the
    // follower's share itself: it must equal the reference key block.
    assert_eq!(&keys.client_write_key[..], &s.key_block[0..16]);
    assert_eq!(&keys.server_write_key[..], &s.key_block[16..32]);
    assert_eq!(&keys.client_write_iv[..], &s.key_block[32..36]);
    assert_eq!(&keys.server_write_iv[..], &s.key_block[36..40]);
    let sent = &follower.channel.sent;
    assert_eq!(sent.len(), 4);
    assert_eq!(sent[0], leader(MsgTag::FollowerMs1, s.a1));
    assert_eq!(sent[1], leader(MsgTag::FollowerMs2, s.a2));
    assert_eq!(sent[2], leader(MsgTag::FollowerKe1, s.ka1));
    assert_eq!(sent[3], leader(MsgTag::FollowerKe2, s.ka2));

    let follower = follower.compute_client_finished().expect("client finished");
    let sent = &follower.channel.sent;
    assert_eq!(sent.len(), 6);
    assert_eq!(sent[4], leader(MsgTag::FollowerCf1, s.cf_a1));
    assert_eq!(sent[5], leader(MsgTag::FollowerCf2, s.cf_p1));

    follower.compute_server_finished().expect("server finished");
}

#[test]
fn server_finished_phase_replies_with_the_reference_hashes() {
    let s = schedule();
    let mut channel = PRFChannel::new(vec![
        leader(MsgTag::LeaderSf1, inner_hash(&s.ms, &s.seed_sf)),
        leader(MsgTag::LeaderSf2, inner_hash(&s.ms, &concat(&s.sf_a1, &s.seed_sf))),
    ]);
    let core = Sf1Core { outer_state: hmac_outer_state(&s.ms) };
    run_sf_phase(&mut channel, core).expect("server finished phase");
    assert_eq!(channel.sent.len(), 2);
    assert_eq!(channel.sent[0], leader(MsgTag::FollowerSf1, s.sf_a1));
    assert_eq!(channel.sent[1], leader(MsgTag::FollowerSf2, s.sf_p1));
}

#[test]
fn wrong_tag_mid_master_secret_names_the_offending_message() {
    let s = schedule();
    let script = vec![
        leader(MsgTag::LeaderMs1, inner_hash(&s.pms, &s.seed_ms)),
        leader(MsgTag::LeaderMs3, [9u8; 32]),
    ];
    let follower = PRFFollower::new(PRFChannel::new(script.clone()), mock(false));
    let r = follower.compute_session_keys(P256SecretShare { bytes: [0u8; 32] });
    match r {
        Err(PRFError::UnexpectedMessage(m)) => assert_eq!(m, script[1]),
        other => panic!("expected the out-of-order message, got {:?}", other.is_ok()),
    }
}

#[test]
fn early_close_aborts_the_connection() {
    let s = schedule();
    let script = vec![leader(MsgTag::LeaderMs1, inner_hash(&s.pms, &s.seed_ms))];
    let follower = PRFFollower::new(PRFChannel::new(script), mock(false));
    let r = follower.compute_session_keys(P256SecretShare { bytes: [0u8; 32] });
    match r {
        Err(PRFError::ConnectionAborted) => {},
        other => panic!("expected an aborted connection, got {:?}", other.is_ok()),
    }
}

#[test]
fn circuit_failure_surfaces_and_stops_before_key_expansion() {
    let s = schedule();
    let follower = PRFFollower::new(PRFChannel::new(full_script(&s)), mock(true));
    let r = follower.compute_session_keys(P256SecretShare { bytes: [0u8; 32] });
    match r {
        Err(PRFError::GarbledCircuit(CircuitError::ExecutionFailed)) => {},
        other => panic!("expected the circuit error, got {:?}", other.is_ok()),
    }
    // Driving the pieces directly shows nothing is emitted past the
    // master-secret phase when `c2` fails.
    let mut exec = mock(true);
    let mut channel = PRFChannel::new(full_script(&s));
    let v1 = exec.c1(&P256SecretShare { bytes: [0u8; 32] }).unwrap();
    let done = run_ms_phase(&mut channel, Ms1Core {}, v1).expect("master secret phase");
    assert!(exec.c2(&v1, &done.p2()).is_err());
    assert_eq!(channel.sent.len(), 2);
    assert_eq!(channel.sent[0].tag, MsgTag::FollowerMs1);
    assert_eq!(channel.sent[1].tag, MsgTag::FollowerMs2);
}

#[test]
fn replies_sent_before_a_deviation_are_the_reference_hashes() {
    let s = schedule();
    let script = vec![
        leader(MsgTag::LeaderMs1, inner_hash(&s.pms, &s.seed_ms)),
        leader(MsgTag::LeaderKe1, [5u8; 32]),
    ];
    let mut channel = PRFChannel::new(script.clone());
    let v1 = hmac_outer_state(&s.pms);
    match run_ms_phase(&mut channel, Ms1Core {}, v1) {
        Err(PRFError::UnexpectedMessage(m)) => assert_eq!(m, script[1]),
        other => panic!("expected the out-of-order message, got {:?}", other.is_ok()),
    }
    assert_eq!(channel.sent.len(), 1);
    assert_eq!(channel.sent[0], leader(MsgTag::FollowerMs1, s.a1));
}

#[test]
fn zero_secret_share_is_accepted_by_the_core() {
    let s = schedule();
    let follower = PRFFollower::new(PRFChannel::new(full_script(&s)), mock(false));
    let r = follower.compute_session_keys(P256SecretShare { bytes: [0u8; 32] });
    assert!(r.is_ok());
}
