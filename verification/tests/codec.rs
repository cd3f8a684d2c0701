use notary_prf::error::PRFError;
use notary_prf::msg::{decode_message, MsgTag, PRFMessage};

const ALL_TAGS: [MsgTag; 17] = [
    MsgTag::LeaderMs1,
    MsgTag::FollowerMs1,
    MsgTag::LeaderMs2,
    MsgTag::FollowerMs2,
    MsgTag::LeaderMs3,
    MsgTag::LeaderKe1,
    MsgTag::FollowerKe1,
    MsgTag::LeaderKe2,
    MsgTag::FollowerKe2,
    MsgTag::LeaderCf1,
    MsgTag::FollowerCf1,
    MsgTag::LeaderCf2,
    MsgTag::FollowerCf2,
    MsgTag::LeaderSf1,
    MsgTag::FollowerSf1,
    MsgTag::LeaderSf2,
    MsgTag::FollowerSf2,
];

#[test]
fn encode_decode_round_trip_all_tags() {
    for (i, tag) in ALL_TAGS.iter().enumerate() {
        let mut payload = [0u8; 32];
        for (j, b) in payload.iter_mut().enumerate() {
            *b = (i * 31 + j) as u8;
        }
        let m = PRFMessage { tag: *tag, payload };
        let bytes = m.encode();
        assert_eq!(bytes.len(), 33);
        assert_eq!(bytes[0], (i + 1) as u8);
        let back = PRFMessage::decode(&bytes).expect("well-formed record must decode");
        assert_eq!(back, m);
    }
}

#[test]
fn tag_bytes_are_fixed() {
    assert_eq!(MsgTag::LeaderMs1.byte(), 1);
    assert_eq!(MsgTag::FollowerMs1.byte(), 2);
    assert_eq!(MsgTag::LeaderMs3.byte(), 5);
    assert_eq!(MsgTag::FollowerSf2.byte(), 17);
    assert_eq!(MsgTag::of_byte(1), Some(MsgTag::LeaderMs1));
    assert_eq!(MsgTag::of_byte(17), Some(MsgTag::FollowerSf2));
    assert_eq!(MsgTag::of_byte(0), None);
    assert_eq!(MsgTag::of_byte(18), None);
    assert_eq!(MsgTag::of_byte(255), None);
}

#[test]
fn decode_rejects_wrong_length() {
    assert!(PRFMessage::decode(&[]).is_none());
    assert!(PRFMessage::decode(&[1u8; 32]).is_none());
    assert!(PRFMessage::decode(&[1u8; 34]).is_none());
}

#[test]
fn decode_rejects_unknown_tag() {
    let mut bytes = vec![0u8; 33];
    assert!(PRFMessage::decode(&bytes).is_none());
    bytes[0] = 18;
    assert!(PRFMessage::decode(&bytes).is_none());
}

#[test]
fn decode_message_maps_failure_to_malformed() {
    let bytes = vec![99u8; 33];
    assert_eq!(decode_message(&bytes), Err(PRFError::Malformed));
    let m = PRFMessage { tag: MsgTag::LeaderKe1, payload: [7u8; 32] };
    assert_eq!(decode_message(&m.encode()), Ok(m));
}
