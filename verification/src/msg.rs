//! Typed messages exchanged between leader and follower, with their
//! deterministic wire encoding: a tag byte followed by the 32-byte payload.

use vstd::prelude::*;

verus! {

/// Closed set of message tags. The `Leader`/`Follower` prefix names the
/// sender; the suffix names the protocol step.
#[derive(Clone, Copy, Debug, PartialEq, Eq, Structural)]
pub enum MsgTag {
    LeaderMs1,
    FollowerMs1,
    LeaderMs2,
    FollowerMs2,
    LeaderMs3,
    LeaderKe1,
    FollowerKe1,
    LeaderKe2,
    FollowerKe2,
    LeaderCf1,
    FollowerCf1,
    LeaderCf2,
    FollowerCf2,
    LeaderSf1,
    FollowerSf1,
    LeaderSf2,
    FollowerSf2,
}

/// A PRF protocol message: every step carries a fixed 32-byte HMAC-SHA-256
/// intermediate (an inner hash from the leader, an outer hash from the
/// follower).
#[derive(Clone, Copy, Debug, PartialEq, Eq)]
pub struct PRFMessage {
    pub tag: MsgTag,
    pub payload: [u8; 32],
}

/// Wire value of each tag.
pub open spec fn spec_tag_byte(t: MsgTag) -> u8 {
    match t {
        MsgTag::LeaderMs1 => 1,
        MsgTag::FollowerMs1 => 2,
        MsgTag::LeaderMs2 => 3,
        MsgTag::FollowerMs2 => 4,
        MsgTag::LeaderMs3 => 5,
        MsgTag::LeaderKe1 => 6,
        MsgTag::FollowerKe1 => 7,
        MsgTag::LeaderKe2 => 8,
        MsgTag::FollowerKe2 => 9,
        MsgTag::LeaderCf1 => 10,
        MsgTag::FollowerCf1 => 11,
        MsgTag::LeaderCf2 => 12,
        MsgTag::FollowerCf2 => 13,
        MsgTag::LeaderSf1 => 14,
        MsgTag::FollowerSf1 => 15,
        MsgTag::LeaderSf2 => 16,
        MsgTag::FollowerSf2 => 17,
    }
}

/// Inverse of `spec_tag_byte`: the tag set is closed, every other byte is
/// rejected.
pub open spec fn spec_tag_of_byte(b: u8) -> Option<MsgTag> {
    if b == 1 {
        Some(MsgTag::LeaderMs1)
    } else if b == 2 {
        Some(MsgTag::FollowerMs1)
    } else if b == 3 {
        Some(MsgTag::LeaderMs2)
    } else if b == 4 {
        Some(MsgTag::FollowerMs2)
    } else if b == 5 {
        Some(MsgTag::LeaderMs3)
    } else if b == 6 {
        Some(MsgTag::LeaderKe1)
    } else if b == 7 {
        Some(MsgTag::FollowerKe1)
    } else if b == 8 {
        Some(MsgTag::LeaderKe2)
    } else if b == 9 {
        Some(MsgTag::FollowerKe2)
    } else if b == 10 {
        Some(MsgTag::LeaderCf1)
    } else if b == 11 {
        Some(MsgTag::FollowerCf1)
    } else if b == 12 {
        Some(MsgTag::LeaderCf2)
    } else if b == 13 {
        Some(MsgTag::FollowerCf2)
    } else if b == 14 {
        Some(MsgTag::LeaderSf1)
    } else if b == 15 {
        Some(MsgTag::FollowerSf1)
    } else if b == 16 {
        Some(MsgTag::LeaderSf2)
    } else if b == 17 {
        Some(MsgTag::FollowerSf2)
    } else {
        None
    }
}

/// Number of bytes a message occupies on the wire: one tag byte and the
/// 32-byte payload.
pub const WIRE_LEN: usize = 33;

/// Encoding of a message: its tag byte followed by its payload.
pub open spec fn spec_encode(m: PRFMessage) -> Seq<u8> {
    seq![spec_tag_byte(m.tag)] + m.payload@
}

/// A byte string decodes iff it is exactly `WIRE_LEN` bytes long and opens
/// with a known tag byte.
pub open spec fn spec_decode_ok(bytes: Seq<u8>) -> bool {
    bytes.len() == WIRE_LEN && spec_tag_of_byte(bytes[0]) is Some
}

/// Tag of a well-formed wire record.
pub open spec fn spec_decoded_tag(bytes: Seq<u8>) -> MsgTag
    recommends
        spec_decode_ok(bytes),
{
    spec_tag_of_byte(bytes[0])->Some_0
}

/// Payload of a well-formed wire record: everything after the tag byte.
pub open spec fn spec_decoded_payload(bytes: Seq<u8>) -> Seq<u8>
    recommends
        spec_decode_ok(bytes),
{
    bytes.subrange(1, WIRE_LEN as int)
}

impl MsgTag {
    /// The tag's wire byte.
    pub fn byte(self) -> (b: u8)
        ensures
            b == spec_tag_byte(self),
    {
        match self {
            MsgTag::LeaderMs1 => 1,
            MsgTag::FollowerMs1 => 2,
            MsgTag::LeaderMs2 => 3,
            MsgTag::FollowerMs2 => 4,
            MsgTag::LeaderMs3 => 5,
            MsgTag::LeaderKe1 => 6,
            MsgTag::FollowerKe1 => 7,
            MsgTag::LeaderKe2 => 8,
            MsgTag::FollowerKe2 => 9,
            MsgTag::LeaderCf1 => 10,
            MsgTag::FollowerCf1 => 11,
            MsgTag::LeaderCf2 => 12,
            MsgTag::FollowerCf2 => 13,
            MsgTag::LeaderSf1 => 14,
            MsgTag::FollowerSf1 => 15,
            MsgTag::LeaderSf2 => 16,
            MsgTag::FollowerSf2 => 17,
        }
    }

    /// Reads a tag back from its wire byte; unknown bytes are rejected.
    pub fn of_byte(b: u8) -> (t: Option<MsgTag>)
        ensures
            t == spec_tag_of_byte(b),
    {
        if b == 1 {
            Some(MsgTag::LeaderMs1)
        } else if b == 2 {
            Some(MsgTag::FollowerMs1)
        } else if b == 3 {
            Some(MsgTag::LeaderMs2)
        } else if b == 4 {
            Some(MsgTag::FollowerMs2)
        } else if b == 5 {
            Some(MsgTag::LeaderMs3)
        } else if b == 6 {
            Some(MsgTag::LeaderKe1)
        } else if b == 7 {
            Some(MsgTag::FollowerKe1)
        } else if b == 8 {
            Some(MsgTag::LeaderKe2)
        } else if b == 9 {
            Some(MsgTag::FollowerKe2)
        } else if b == 10 {
            Some(MsgTag::LeaderCf1)
        } else if b == 11 {
            Some(MsgTag::FollowerCf1)
        } else if b == 12 {
            Some(MsgTag::LeaderCf2)
        } else if b == 13 {
            Some(MsgTag::FollowerCf2)
        } else if b == 14 {
            Some(MsgTag::LeaderSf1)
        } else if b == 15 {
            Some(MsgTag::FollowerSf1)
        } else if b == 16 {
            Some(MsgTag::LeaderSf2)
        } else if b == 17 {
            Some(MsgTag::FollowerSf2)
        } else {
            None
        }
    }
}

impl PRFMessage {
    /// Serialises the message for the wire.
    pub fn encode(&self) -> (out: Vec<u8>)
        ensures
            out@ == spec_encode(*self),
            out@.len() == WIRE_LEN,
    {
        let mut out: Vec<u8> = Vec::new();
        out.push(self.tag.byte());
        let mut i: usize = 0;
        while i < 32
            invariant
                out@.len() == 1 + i,
                i <= 32,
                out@[0] == spec_tag_byte(self.tag),
                forall|j: int| 0 <= j < i ==> out@[j + 1] == self.payload@[j],
            decreases 32 - i,
        {
            out.push(self.payload[i]);
            i += 1;
        }
        proof {
            assert(out@ =~= spec_encode(*self));
        }
        out
    }

    /// Parses one wire message; anything but a well-formed record of a
    /// known tag is rejected.
    pub fn decode(bytes: &[u8]) -> (r: Option<PRFMessage>)
        ensures
            (r is Some) == spec_decode_ok(bytes@),
            r matches Some(m) ==> m.tag == spec_decoded_tag(bytes@) && m.payload@
                == spec_decoded_payload(bytes@),
    {
        if bytes.len() != WIRE_LEN {
            return None;
        }
        let tag = match MsgTag::of_byte(bytes[0]) {
            Some(t) => t,
            None => {
                return None;
            },
        };
        let mut payload: [u8; 32] = [0; 32];
        let mut i: usize = 0;
        while i < 32
            invariant
                i <= 32,
                bytes@.len() == WIRE_LEN,
                forall|j: int| 0 <= j < i ==> payload@[j] == bytes@[j + 1],
            decreases 32 - i,
        {
            payload[i] = bytes[i + 1];
            i += 1;
        }
        proof {
            assert(payload@ =~= spec_decoded_payload(bytes@));
        }
        Some(PRFMessage { tag, payload })
    }
}

/// Reads one wire record for the channel layer: a payload that fails to
/// decode against the expected shape is a protocol error.
pub fn decode_message(bytes: &[u8]) -> (r: Result<PRFMessage, crate::error::PRFError>)
    ensures
        (r is Ok) == spec_decode_ok(bytes@),
        r matches Ok(m) ==> m.tag == spec_decoded_tag(bytes@) && m.payload@
            == spec_decoded_payload(bytes@),
        r is Err ==> r == Err::<PRFMessage, crate::error::PRFError>(
            crate::error::PRFError::Malformed,
        ),
{
    match PRFMessage::decode(bytes) {
        Some(m) => Ok(m),
        None => Err(crate::error::PRFError::Malformed),
    }
}

/// Law: the wire encoding round-trips — a record produced by `encode`
/// always decodes, to the tag and payload it was made from, for every
/// message.
pub proof fn lemma_codec_round_trip(m: PRFMessage)
    ensures
        spec_decode_ok(spec_encode(m)),
        spec_decoded_tag(spec_encode(m)) == m.tag,
        spec_decoded_payload(spec_encode(m)) == m.payload@,
{
    let bytes = spec_encode(m);
    assert(bytes[0] == spec_tag_byte(m.tag));
    assert(spec_tag_of_byte(spec_tag_byte(m.tag)) == Some(m.tag));
    assert(spec_decoded_payload(bytes) =~= m.payload@);
}

} // verus!
