//! SHA-256 compression and the outer half of HMAC-SHA-256.
//!
//! The follower only ever runs single compressions: once to key an outer
//! pad block, and once per protocol step to finalise an outer hash over a
//! 32-byte inner hash received from the leader. Both are implemented here
//! against a full specification of the compression function.

use vstd::prelude::*;

verus! {

/// Right rotation of a 32-bit word.
pub open spec fn spec_rotr(x: u32, n: u32) -> u32
    recommends
        0 < n < 32,
{
    (x >> n) | (x << ((32 - n) as u32))
}

/// Upper-case sigma-0 of the round function.
pub open spec fn spec_big_sigma0(x: u32) -> u32 {
    spec_rotr(x, 2) ^ spec_rotr(x, 13) ^ spec_rotr(x, 22)
}

/// Upper-case sigma-1 of the round function.
pub open spec fn spec_big_sigma1(x: u32) -> u32 {
    spec_rotr(x, 6) ^ spec_rotr(x, 11) ^ spec_rotr(x, 25)
}

/// Lower-case sigma-0 of the message schedule.
pub open spec fn spec_small_sigma0(x: u32) -> u32 {
    spec_rotr(x, 7) ^ spec_rotr(x, 18) ^ (x >> 3)
}

/// Lower-case sigma-1 of the message schedule.
pub open spec fn spec_small_sigma1(x: u32) -> u32 {
    spec_rotr(x, 17) ^ spec_rotr(x, 19) ^ (x >> 10)
}

/// Choice function of the round.
pub open spec fn spec_ch(x: u32, y: u32, z: u32) -> u32 {
    (x & y) ^ (!x & z)
}

/// Majority function of the round.
pub open spec fn spec_maj(x: u32, y: u32, z: u32) -> u32 {
    (x & y) ^ (x & z) ^ (y & z)
}

/// The 64 round constants.
pub open spec fn spec_k() -> Seq<u32> {
    seq![
        0x428a2f98u32, 0x71374491, 0xb5c0fbcf, 0xe9b5dba5, 0x3956c25b, 0x59f111f1, 0x923f82a4,
        0xab1c5ed5, 0xd807aa98, 0x12835b01, 0x243185be, 0x550c7dc3, 0x72be5d74, 0x80deb1fe,
        0x9bdc06a7, 0xc19bf174, 0xe49b69c1, 0xefbe4786, 0x0fc19dc6, 0x240ca1cc, 0x2de92c6f,
        0x4a7484aa, 0x5cb0a9dc, 0x76f988da, 0x983e5152, 0xa831c66d, 0xb00327c8, 0xbf597fc7,
        0xc6e00bf3, 0xd5a79147, 0x06ca6351, 0x14292967, 0x27b70a85, 0x2e1b2138, 0x4d2c6dfc,
        0x53380d13, 0x650a7354, 0x766a0abb, 0x81c2c92e, 0x92722c85, 0xa2bfe8a1, 0xa81a664b,
        0xc24b8b70, 0xc76c51a3, 0xd192e819, 0xd6990624, 0xf40e3585, 0x106aa070, 0x19a4c116,
        0x1e376c08, 0x2748774c, 0x34b0bcb5, 0x391c0cb3, 0x4ed8aa4a, 0x5b9cca4f, 0x682e6ff3,
        0x748f82ee, 0x78a5636f, 0x84c87814, 0x8cc70208, 0x90befffa, 0xa4506ceb, 0xbef9a3f7,
        0xc67178f2,
    ]
}

/// The initial hash value.
pub open spec fn spec_iv() -> Seq<u32> {
    seq![
        0x6a09e667u32, 0xbb67ae85, 0x3c6ef372, 0xa54ff53a, 0x510e527f, 0x9b05688c, 0x1f83d9ab,
        0x5be0cd19,
    ]
}

/// Word `t` of the block, big-endian, for `t` below 16.
pub open spec fn spec_block_word(block: Seq<u8>, t: int) -> u32
    recommends
        block.len() == 64,
        0 <= t < 16,
{
    ((block[4 * t] as u32) << 24u32) | ((block[4 * t + 1] as u32) << 16u32) | ((block[4 * t + 2]
        as u32) << 8u32) | (block[4 * t + 3] as u32)
}

/// Word `t` of the message schedule.
pub open spec fn spec_sched(block: Seq<u8>, t: int) -> u32
    recommends
        block.len() == 64,
        0 <= t < 64,
    decreases t,
{
    if t < 16 {
        spec_block_word(block, t)
    } else {
        spec_small_sigma1(spec_sched(block, t - 2)).wrapping_add(spec_sched(block, t - 7))
            .wrapping_add(spec_small_sigma0(spec_sched(block, t - 15))).wrapping_add(
            spec_sched(block, t - 16),
        )
    }
}

/// The eight working variables of the round function.
pub type Vars8 = (u32, u32, u32, u32, u32, u32, u32, u32);

/// One round: absorb round constant `k` and schedule word `w`.
pub open spec fn spec_round(s: Vars8, k: u32, w: u32) -> Vars8 {
    let t1 = s.7.wrapping_add(spec_big_sigma1(s.4)).wrapping_add(spec_ch(s.4, s.5, s.6))
        .wrapping_add(k).wrapping_add(w);
    let t2 = spec_big_sigma0(s.0).wrapping_add(spec_maj(s.0, s.1, s.2));
    (t1.wrapping_add(t2), s.0, s.1, s.2, s.3.wrapping_add(t1), s.4, s.5, s.6)
}

/// The working variables after the first `t` rounds.
pub open spec fn spec_rounds(block: Seq<u8>, init: Vars8, t: int) -> Vars8
    recommends
        block.len() == 64,
        0 <= t <= 64,
    decreases t,
{
    if t <= 0 {
        init
    } else {
        spec_round(
            spec_rounds(block, init, t - 1),
            spec_k()[t - 1],
            spec_sched(block, t - 1),
        )
    }
}

/// The compression function: all 64 rounds, then the feed-forward addition
/// of the incoming state.
pub open spec fn spec_compress(state: Seq<u32>, block: Seq<u8>) -> Seq<u32>
    recommends
        state.len() == 8,
        block.len() == 64,
{
    let init = (state[0], state[1], state[2], state[3], state[4], state[5], state[6], state[7]);
    let v = spec_rounds(block, init, 64);
    seq![
        state[0].wrapping_add(v.0), state[1].wrapping_add(v.1), state[2].wrapping_add(v.2),
        state[3].wrapping_add(v.3), state[4].wrapping_add(v.4), state[5].wrapping_add(v.5),
        state[6].wrapping_add(v.6), state[7].wrapping_add(v.7),
    ]
}

fn rotr(x: u32, n: u32) -> (r: u32)
    requires
        0 < n < 32,
    ensures
        r == spec_rotr(x, n),
{
    (x >> n) | (x << (32 - n))
}

fn big_sigma0(x: u32) -> (r: u32)
    ensures
        r == spec_big_sigma0(x),
{
    rotr(x, 2) ^ rotr(x, 13) ^ rotr(x, 22)
}

fn big_sigma1(x: u32) -> (r: u32)
    ensures
        r == spec_big_sigma1(x),
{
    rotr(x, 6) ^ rotr(x, 11) ^ rotr(x, 25)
}

fn small_sigma0(x: u32) -> (r: u32)
    ensures
        r == spec_small_sigma0(x),
{
    rotr(x, 7) ^ rotr(x, 18) ^ (x >> 3)
}

fn small_sigma1(x: u32) -> (r: u32)
    ensures
        r == spec_small_sigma1(x),
{
    rotr(x, 17) ^ rotr(x, 19) ^ (x >> 10)
}

/// The initial hash value as a state array.
pub fn sha256_iv() -> (out: [u32; 8])
    ensures
        out@ == spec_iv(),
{
    let out: [u32; 8] = [
        0x6a09e667, 0xbb67ae85, 0x3c6ef372, 0xa54ff53a, 0x510e527f, 0x9b05688c, 0x1f83d9ab,
        0x5be0cd19,
    ];
    proof {
        assert(out@ =~= spec_iv());
    }
    out
}

fn k_table() -> (out: Vec<u32>)
    ensures
        out@ == spec_k(),
{
    let out: Vec<u32> = vec![
        0x428a2f98, 0x71374491, 0xb5c0fbcf, 0xe9b5dba5, 0x3956c25b, 0x59f111f1, 0x923f82a4,
        0xab1c5ed5, 0xd807aa98, 0x12835b01, 0x243185be, 0x550c7dc3, 0x72be5d74, 0x80deb1fe,
        0x9bdc06a7, 0xc19bf174, 0xe49b69c1, 0xefbe4786, 0x0fc19dc6, 0x240ca1cc, 0x2de92c6f,
        0x4a7484aa, 0x5cb0a9dc, 0x76f988da, 0x983e5152, 0xa831c66d, 0xb00327c8, 0xbf597fc7,
        0xc6e00bf3, 0xd5a79147, 0x06ca6351, 0x14292967, 0x27b70a85, 0x2e1b2138, 0x4d2c6dfc,
        0x53380d13, 0x650a7354, 0x766a0abb, 0x81c2c92e, 0x92722c85, 0xa2bfe8a1, 0xa81a664b,
        0xc24b8b70, 0xc76c51a3, 0xd192e819, 0xd6990624, 0xf40e3585, 0x106aa070, 0x19a4c116,
        0x1e376c08, 0x2748774c, 0x34b0bcb5, 0x391c0cb3, 0x4ed8aa4a, 0x5b9cca4f, 0x682e6ff3,
        0x748f82ee, 0x78a5636f, 0x84c87814, 0x8cc70208, 0x90befffa, 0xa4506ceb, 0xbef9a3f7,
        0xc67178f2,
    ];
    proof {
        assert(out@ =~= spec_k());
    }
    out
}

/// One application of the SHA-256 compression function.
pub fn sha256_compress(state: &[u32; 8], block: &[u8; 64]) -> (out: [u32; 8])
    ensures
        out@ == spec_compress(state@, block@),
{
    let mut w: [u32; 64] = [0; 64];
    let mut t: usize = 0;
    while t < 16
        invariant
            t <= 16,
            forall|j: int| 0 <= j < t ==> w@[j] == spec_sched(block@, j),
        decreases 16 - t,
    {
        w[t] = ((block[4 * t] as u32) << 24) | ((block[4 * t + 1] as u32) << 16) | ((block[4 * t
            + 2] as u32) << 8) | (block[4 * t + 3] as u32);
        t += 1;
    }
    while t < 64
        invariant
            16 <= t <= 64,
            forall|j: int| 0 <= j < t ==> w@[j] == spec_sched(block@, j),
        decreases 64 - t,
    {
        w[t] = small_sigma1(w[t - 2]).wrapping_add(w[t - 7]).wrapping_add(
            small_sigma0(w[t - 15]),
        ).wrapping_add(w[t - 16]);
        t += 1;
    }
    let k = k_table();
    let ghost init = (
        state@[0],
        state@[1],
        state@[2],
        state@[3],
        state@[4],
        state@[5],
        state@[6],
        state@[7],
    );
    let mut a = state[0];
    let mut b = state[1];
    let mut c = state[2];
    let mut d = state[3];
    let mut e = state[4];
    let mut f = state[5];
    let mut g = state[6];
    let mut h = state[7];
    let mut t: usize = 0;
    while t < 64
        invariant
            t <= 64,
            k@ == spec_k(),
            forall|j: int| 0 <= j < 64 ==> w@[j] == spec_sched(block@, j),
            (a, b, c, d, e, f, g, h) == spec_rounds(block@, init, t as int),
        decreases 64 - t,
    {
        let t1 = h.wrapping_add(big_sigma1(e)).wrapping_add((e & f) ^ (!e & g)).wrapping_add(
            k[t],
        ).wrapping_add(w[t]);
        let t2 = big_sigma0(a).wrapping_add((a & b) ^ (a & c) ^ (b & c));
        h = g;
        g = f;
        f = e;
        e = d.wrapping_add(t1);
        d = c;
        c = b;
        b = a;
        a = t1.wrapping_add(t2);
        t += 1;
    }
    let out: [u32; 8] = [
        state[0].wrapping_add(a),
        state[1].wrapping_add(b),
        state[2].wrapping_add(c),
        state[3].wrapping_add(d),
        state[4].wrapping_add(e),
        state[5].wrapping_add(f),
        state[6].wrapping_add(g),
        state[7].wrapping_add(h),
    ];
    proof {
        assert(out@ =~= spec_compress(state@, block@));
    }
    out
}

/// Big-endian serialisation of one word.
pub open spec fn spec_word_bytes(x: u32) -> Seq<u8> {
    seq![
        ((x >> 24u32) & 0xff) as u8, ((x >> 16u32) & 0xff) as u8, ((x >> 8u32) & 0xff) as u8, (x
        & 0xff) as u8,
    ]
}

/// Big-endian serialisation of a state: four bytes per word.
pub open spec fn spec_state_bytes(state: Seq<u32>) -> Seq<u8>
    recommends
        state.len() == 8,
{
    spec_word_bytes(state[0]) + spec_word_bytes(state[1]) + spec_word_bytes(state[2])
        + spec_word_bytes(state[3]) + spec_word_bytes(state[4]) + spec_word_bytes(state[5])
        + spec_word_bytes(state[6]) + spec_word_bytes(state[7])
}

proof fn lemma_word_bytes_fit(x: u32)
    ensures
        (x >> 24u32) & 0xff < 256,
        (x >> 16u32) & 0xff < 256,
        (x >> 8u32) & 0xff < 256,
        x & 0xff < 256,
{
    assert((x >> 24u32) & 0xff < 256) by (bit_vector);
    assert((x >> 16u32) & 0xff < 256) by (bit_vector);
    assert((x >> 8u32) & 0xff < 256) by (bit_vector);
    assert(x & 0xff < 256) by (bit_vector);
}

fn word_to_bytes(x: u32, out: &mut [u8; 32], at: usize)
    requires
        at <= 28,
    ensures
        final(out)@ == old(out)@.update(at as int, spec_word_bytes(x)[0]).update(
            at + 1,
            spec_word_bytes(x)[1],
        ).update(at + 2, spec_word_bytes(x)[2]).update(at + 3, spec_word_bytes(x)[3]),
{
    proof {
        lemma_word_bytes_fit(x);
    }
    out[at] = ((x >> 24) & 0xff) as u8;
    out[at + 1] = ((x >> 16) & 0xff) as u8;
    out[at + 2] = ((x >> 8) & 0xff) as u8;
    out[at + 3] = (x & 0xff) as u8;
}

/// Serialises a hash state to its 32-byte digest form.
pub fn state_to_bytes(state: &[u32; 8]) -> (out: [u8; 32])
    ensures
        out@ == spec_state_bytes(state@),
{
    let mut out: [u8; 32] = [0; 32];
    word_to_bytes(state[0], &mut out, 0);
    word_to_bytes(state[1], &mut out, 4);
    word_to_bytes(state[2], &mut out, 8);
    word_to_bytes(state[3], &mut out, 12);
    word_to_bytes(state[4], &mut out, 16);
    word_to_bytes(state[5], &mut out, 20);
    word_to_bytes(state[6], &mut out, 24);
    word_to_bytes(state[7], &mut out, 28);
    proof {
        assert(out@ =~= spec_state_bytes(state@));
    }
    out
}

/// The single padded block that finalises an outer HMAC evaluation: the
/// 32-byte inner hash, the padding bit, zeros, and the 768-bit message
/// length (one key block plus 32 bytes), big-endian.
pub open spec fn spec_outer_pad_block(inner: Seq<u8>) -> Seq<u8>
    recommends
        inner.len() == 32,
{
    inner + seq![0x80u8] + Seq::new(23, |i: int| 0u8) + seq![
        0u8, 0u8, 0u8, 0u8, 0u8, 0u8, 3u8, 0u8,
    ]
}

/// The outer hash: what the follower answers to each inner hash the leader
/// sends, given the outer pad state it holds.
pub open spec fn spec_outer_hash(state: Seq<u32>, inner: Seq<u8>) -> Seq<u8>
    recommends
        state.len() == 8,
        inner.len() == 32,
{
    spec_state_bytes(spec_compress(state, spec_outer_pad_block(inner)))
}

/// Finalises an outer HMAC-SHA-256 evaluation over a 32-byte inner hash.
pub fn outer_hash(state: &[u32; 8], inner: &[u8; 32]) -> (out: [u8; 32])
    ensures
        out@ == spec_outer_hash(state@, inner@),
{
    let mut block: [u8; 64] = [0; 64];
    let mut i: usize = 0;
    while i < 32
        invariant
            i <= 32,
            forall|j: int| 0 <= j < i ==> block@[j] == inner@[j],
            forall|j: int| i <= j < 64 ==> block@[j] == 0u8,
        decreases 32 - i,
    {
        block[i] = inner[i];
        i += 1;
    }
    block[32] = 0x80;
    block[62] = 3;
    let digest = sha256_compress(state, &block);
    proof {
        assert(block@ =~= spec_outer_pad_block(inner@));
    }
    state_to_bytes(&digest)
}

/// A 64-byte key block xored with a repeated pad byte; keys up to one
/// block are supported, shorter keys are zero-extended first.
pub open spec fn spec_key_pad_block(key: Seq<u8>, pad: u8) -> Seq<u8>
    recommends
        key.len() <= 64,
{
    Seq::new(
        64,
        |i: int|
            if i < key.len() {
                key[i] ^ pad
            } else {
                pad
            },
    )
}

fn key_pad_state(key: &[u8], pad: u8) -> (out: [u32; 8])
    requires
        key@.len() <= 64,
    ensures
        out@ == spec_compress(spec_iv(), spec_key_pad_block(key@, pad)),
{
    let mut block: [u8; 64] = [0; 64];
    let mut i: usize = 0;
    while i < key.len()
        invariant
            i <= key@.len() <= 64,
            forall|j: int| 0 <= j < i ==> block@[j] == (key@[j] ^ pad),
            forall|j: int| i <= j < 64 ==> block@[j] == 0u8,
        decreases key@.len() - i,
    {
        block[i] = key[i] ^ pad;
        i += 1;
    }
    while i < 64
        invariant
            key@.len() <= i <= 64,
            forall|j: int| 0 <= j < key@.len() ==> block@[j] == (key@[j] ^ pad),
            forall|j: int| key@.len() <= j < i ==> block@[j] == pad,
            forall|j: int| i <= j < 64 ==> block@[j] == 0u8,
        decreases 64 - i,
    {
        block[i] = pad;
        i += 1;
    }
    proof {
        assert(block@ =~= spec_key_pad_block(key@, pad));
    }
    let iv = sha256_iv();
    sha256_compress(&iv, &block)
}

/// The outer-pad state of HMAC-SHA-256 under `key`: the compression of the
/// key block xored with the outer pad byte. This is the state circuit `c1`
/// hands the follower, here computable directly when the key is known.
pub fn hmac_outer_state(key: &[u8]) -> (out: [u32; 8])
    requires
        key@.len() <= 64,
    ensures
        out@ == spec_compress(spec_iv(), spec_key_pad_block(key@, 0x5c)),
{
    key_pad_state(key, 0x5c)
}

/// The inner-pad state of HMAC-SHA-256 under `key`; the leader's half.
pub fn hmac_inner_state(key: &[u8]) -> (out: [u32; 8])
    requires
        key@.len() <= 64,
    ensures
        out@ == spec_compress(spec_iv(), spec_key_pad_block(key@, 0x36)),
{
    key_pad_state(key, 0x36)
}

} // verus!
