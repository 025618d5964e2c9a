//! Record framing: length, length checksum, payload, payload checksum.
use vstd::prelude::*;

use crate::crc::{lemma_masked_crc32c_detects_byte_change, masked_crc32c, spec_masked_crc32c};

verus! {

/// The 8-byte little-endian encoding of `n`.
pub open spec fn le_u64_bytes(n: u64) -> Seq<u8> {
    seq![
        n as u8,
        (n >> 8u64) as u8,
        (n >> 16u64) as u8,
        (n >> 24u64) as u8,
        (n >> 32u64) as u8,
        (n >> 40u64) as u8,
        (n >> 48u64) as u8,
        (n >> 56u64) as u8,
    ]
}

/// The 4-byte little-endian encoding of `n`.
pub open spec fn le_u32_bytes(n: u32) -> Seq<u8> {
    seq![n as u8, (n >> 8u32) as u8, (n >> 16u32) as u8, (n >> 24u32) as u8]
}

/// The number that 8 little-endian bytes encode.
pub open spec fn le_u64_value(b: Seq<u8>) -> u64 {
    (b[0] as u64) | ((b[1] as u64) << 8u64) | ((b[2] as u64) << 16u64) | ((b[3] as u64) << 24u64)
        | ((b[4] as u64) << 32u64) | ((b[5] as u64) << 40u64) | ((b[6] as u64) << 48u64) | ((
    b[7] as u64) << 56u64)
}

/// The frame that carries `payload`.
pub open spec fn spec_frame(payload: Seq<u8>) -> Seq<u8> {
    let len = le_u64_bytes(payload.len() as u64);
    len + le_u32_bytes(spec_masked_crc32c(len)) + payload + le_u32_bytes(
        spec_masked_crc32c(payload),
    )
}

/// The length that the first 8 bytes of a frame declare.
pub open spec fn frame_declared_len(f: Seq<u8>) -> int {
    le_u64_value(f.subrange(0, 8)) as int
}

/// What a reader checks of one frame: its length checksum, that its size
/// agrees with the declared length, and its payload checksum.
pub open spec fn frame_valid(f: Seq<u8>) -> bool {
    &&& f.len() >= 16
    &&& f.subrange(8, 12) == le_u32_bytes(spec_masked_crc32c(f.subrange(0, 8)))
    &&& f.len() == 16 + frame_declared_len(f)
    &&& f.subrange(f.len() - 4, f.len() as int) == le_u32_bytes(
        spec_masked_crc32c(f.subrange(12, f.len() - 4)),
    )
}

/// The payload that a reader takes from a frame.
pub open spec fn frame_payload(f: Seq<u8>) -> Seq<u8> {
    f.subrange(12, f.len() - 4)
}

proof fn lemma_le_u64_round_trip(n: u64)
    ensures
        le_u64_value(le_u64_bytes(n)) == n,
{
    let b = le_u64_bytes(n);
    let (b0, b1, b2, b3, b4, b5, b6, b7) = (b[0], b[1], b[2], b[3], b[4], b[5], b[6], b[7]);
    assert((b0 as u64) | ((b1 as u64) << 8u64) | ((b2 as u64) << 16u64) | ((b3 as u64) << 24u64)
        | ((b4 as u64) << 32u64) | ((b5 as u64) << 40u64) | ((b6 as u64) << 48u64) | ((
    b7 as u64) << 56u64) == n) by (bit_vector)
        requires
            b0 == n as u8,
            b1 == (n >> 8u64) as u8,
            b2 == (n >> 16u64) as u8,
            b3 == (n >> 24u64) as u8,
            b4 == (n >> 32u64) as u8,
            b5 == (n >> 40u64) as u8,
            b6 == (n >> 48u64) as u8,
            b7 == (n >> 56u64) as u8,
    ;
}

proof fn lemma_le_u32_injective(a: u32, b: u32)
    ensures
        le_u32_bytes(a) == le_u32_bytes(b) ==> a == b,
{
    if le_u32_bytes(a) == le_u32_bytes(b) {
        let (x, y) = (le_u32_bytes(a), le_u32_bytes(b));
        assert(x[0] == y[0] && x[1] == y[1] && x[2] == y[2] && x[3] == y[3]);
        assert(a == b) by (bit_vector)
            requires
                a as u8 == b as u8,
                (a >> 8u32) as u8 == (b >> 8u32) as u8,
                (a >> 16u32) as u8 == (b >> 16u32) as u8,
                (a >> 24u32) as u8 == (b >> 24u32) as u8,
        ;
    }
}

/// A frame is checksum-valid, and a reader takes back from it exactly the
/// payload it was made from.
pub proof fn lemma_frame_round_trip(payload: Seq<u8>)
    requires
        payload.len() <= u64::MAX,
    ensures
        frame_valid(spec_frame(payload)),
        frame_payload(spec_frame(payload)) == payload,
        spec_frame(payload).len() == payload.len() + 16,
{
    let f = spec_frame(payload);
    let n = f.len();
    let len = le_u64_bytes(payload.len() as u64);
    lemma_le_u64_round_trip(payload.len() as u64);
    assert(f.subrange(0, 8) =~= len);
    assert(f.subrange(8, 12) =~= le_u32_bytes(spec_masked_crc32c(len)));
    assert(f.subrange(12, n - 4) =~= payload);
    assert(f.subrange(n - 4, n as int) =~= le_u32_bytes(spec_masked_crc32c(payload)));
}

/// Changing any one byte of a frame makes a reader reject it.
pub proof fn lemma_frame_detects_byte_change(payload: Seq<u8>, k: int, v: u8)
    requires
        payload.len() <= u64::MAX,
        0 <= k < spec_frame(payload).len(),
        v != spec_frame(payload)[k],
    ensures
        !frame_valid(spec_frame(payload).update(k, v)),
{
    let f = spec_frame(payload);
    let g = f.update(k, v);
    let n = f.len() as int;
    lemma_frame_round_trip(payload);
    if k < 8 {
        let a = f.subrange(0, 8);
        let b = g.subrange(0, 8);
        lemma_masked_crc32c_detects_byte_change(a, b, k);
        lemma_le_u32_injective(spec_masked_crc32c(a), spec_masked_crc32c(b));
        assert(g.subrange(8, 12) =~= f.subrange(8, 12));
    } else if k < 12 {
        assert(g.subrange(0, 8) =~= f.subrange(0, 8));
        assert(g.subrange(8, 12)[k - 8] != f.subrange(8, 12)[k - 8]);
    } else if k < n - 4 {
        let a = f.subrange(12, n - 4);
        let b = g.subrange(12, n - 4);
        assert(g.subrange(0, 8) =~= f.subrange(0, 8));
        assert(g.subrange(8, 12) =~= f.subrange(8, 12));
        lemma_masked_crc32c_detects_byte_change(a, b, k - 12);
        lemma_le_u32_injective(spec_masked_crc32c(a), spec_masked_crc32c(b));
        assert(g.subrange(n - 4, n) =~= f.subrange(n - 4, n));
    } else {
        assert(g.subrange(0, 8) =~= f.subrange(0, 8));
        assert(g.subrange(8, 12) =~= f.subrange(8, 12));
        assert(g.subrange(12, n - 4) =~= f.subrange(12, n - 4));
        assert(g.subrange(n - 4, n)[k - (n - 4)] != f.subrange(n - 4, n)[k - (n - 4)]);
    }
}

/// The frames of `payloads`, one after another.
pub open spec fn frames_of(payloads: Seq<Seq<u8>>) -> Seq<u8>
    decreases payloads.len(),
{
    if payloads.len() == 0 {
        Seq::empty()
    } else {
        spec_frame(payloads[0]) + frames_of(payloads.drop_first())
    }
}

/// What a reader takes from a stream of frames: it reads a declared length,
/// cuts one frame of that size, checks it and goes on with the rest; it
/// fails on a short or corrupt frame.
pub open spec fn read_frames(b: Seq<u8>) -> Option<Seq<Seq<u8>>>
    decreases b.len(),
{
    if b.len() == 0 {
        Some(Seq::empty())
    } else if b.len() < 16 || b.len() < 16 + frame_declared_len(b) {
        None
    } else {
        let f = b.subrange(0, 16 + frame_declared_len(b));
        if !frame_valid(f) {
            None
        } else {
            match read_frames(b.subrange(16 + frame_declared_len(b), b.len() as int)) {
                Some(rest) => Some(seq![frame_payload(f)] + rest),
                None => None,
            }
        }
    }
}

pub proof fn lemma_frames_push(payloads: Seq<Seq<u8>>, p: Seq<u8>)
    ensures
        frames_of(payloads.push(p)) == frames_of(payloads) + spec_frame(p),
    decreases payloads.len(),
{
    if payloads.len() == 0 {
        assert(payloads.push(p).drop_first() =~= Seq::<Seq<u8>>::empty());
        assert(payloads.push(p)[0] == p);
        assert(frames_of(Seq::<Seq<u8>>::empty()) == Seq::<u8>::empty());
        assert(frames_of(payloads.push(p)) =~= spec_frame(p));
    } else {
        assert(payloads.push(p).drop_first() =~= payloads.drop_first().push(p));
        lemma_frames_push(payloads.drop_first(), p);
        assert(frames_of(payloads.push(p)) =~= frames_of(payloads) + spec_frame(p));
    }
}

proof fn lemma_read_frames_step(p: Seq<u8>, r: Seq<u8>)
    requires
        p.len() <= u64::MAX,
    ensures
        read_frames(spec_frame(p) + r) == match read_frames(r) {
            Some(rest) => Some(seq![p] + rest),
            None => None,
        },
{
    let f = spec_frame(p);
    let b = f + r;
    lemma_frame_round_trip(p);
    assert(b.subrange(0, 8) =~= f.subrange(0, 8));
    assert(b.subrange(0, f.len() as int) =~= f);
    assert(b.subrange(f.len() as int, b.len() as int) =~= r);
}

/// A stream of frames reads back as exactly its payloads, in order, each
/// frame checksum-valid.
pub proof fn lemma_read_frames_round_trip(payloads: Seq<Seq<u8>>)
    requires
        forall|i: int| 0 <= i < payloads.len() ==> #[trigger] payloads[i].len() <= u64::MAX,
    ensures
        read_frames(frames_of(payloads)) == Some(payloads),
    decreases payloads.len(),
{
    if payloads.len() == 0 {
        assert(frames_of(payloads) =~= Seq::<u8>::empty());
        assert(payloads =~= Seq::<Seq<u8>>::empty());
    } else {
        let p = payloads[0];
        let rest = payloads.drop_first();
        assert(payloads[0].len() <= u64::MAX);
        assert(forall|i: int| 0 <= i < rest.len() ==> #[trigger] rest[i] == payloads[i + 1]);
        lemma_read_frames_round_trip(rest);
        lemma_read_frames_step(p, frames_of(rest));
        assert(seq![p] + rest =~= payloads);
    }
}

/// Successive appends of frames leave the frames of all their payloads, in
/// order.
pub proof fn lemma_appended_frames(states: Seq<Seq<u8>>, payloads: Seq<Seq<u8>>)
    requires
        states.len() == payloads.len() + 1,
        forall|i: int|
            0 <= i < payloads.len() ==> #[trigger] states[i + 1] == states[i] + spec_frame(
                payloads[i],
            ),
    ensures
        states.last() == states[0] + frames_of(payloads),
    decreases payloads.len(),
{
    if payloads.len() == 0 {
        assert(states.last() =~= states[0] + frames_of(payloads));
    } else {
        let k = payloads.len() - 1;
        let ps = payloads.drop_last();
        let ss = states.drop_last();
        assert forall|i: int| 0 <= i < ps.len() implies #[trigger] ss[i + 1] == ss[i] + spec_frame(
            ps[i],
        ) by {
            assert(states[i + 1] == states[i] + spec_frame(payloads[i]));
        }
        lemma_appended_frames(ss, ps);
        assert(payloads =~= ps.push(payloads[k]));
        lemma_frames_push(ps, payloads[k]);
        assert(states[k + 1] == states[k] + spec_frame(payloads[k]));
        assert(states.last() =~= states[0] + frames_of(payloads));
    }
}

/// Appends `src` to `dst`.
pub fn append_bytes(dst: &mut Vec<u8>, src: &[u8])
    ensures
        final(dst)@ == old(dst)@ + src@,
{
    let ghost start = dst@;
    let mut i: usize = 0;
    while i < src.len()
        invariant
            i <= src@.len(),
            dst@ == start + src@.take(i as int),
        decreases src@.len() - i,
    {
        dst.push(src[i]);
        i = i + 1;
        assert(dst@ =~= start + src@.take(i as int));
    }
    assert(src@.take(src@.len() as int) =~= src@);
}

/// Appends the 8 little-endian bytes of `n`.
pub fn push_le_u64(dst: &mut Vec<u8>, n: u64)
    ensures
        final(dst)@ == old(dst)@ + le_u64_bytes(n),
{
    let ghost start = dst@;
    dst.push(n as u8);
    dst.push((n >> 8u64) as u8);
    dst.push((n >> 16u64) as u8);
    dst.push((n >> 24u64) as u8);
    dst.push((n >> 32u64) as u8);
    dst.push((n >> 40u64) as u8);
    dst.push((n >> 48u64) as u8);
    dst.push((n >> 56u64) as u8);
    assert(dst@ =~= start + le_u64_bytes(n));
}

/// Appends the 4 little-endian bytes of `n`.
pub fn push_le_u32(dst: &mut Vec<u8>, n: u32)
    ensures
        final(dst)@ == old(dst)@ + le_u32_bytes(n),
{
    let ghost start = dst@;
    dst.push(n as u8);
    dst.push((n >> 8u32) as u8);
    dst.push((n >> 16u32) as u8);
    dst.push((n >> 24u32) as u8);
    assert(dst@ =~= start + le_u32_bytes(n));
}

/// The frame that carries `payload`: its length as 8 little-endian bytes,
/// the masked CRC32C of those bytes, the payload, and the masked CRC32C of
/// the payload, each checksum as 4 little-endian bytes.
pub fn encode_frame(payload: &[u8]) -> (r: Vec<u8>)
    ensures
        r@ == spec_frame(payload@),
{
    let mut len_bytes: Vec<u8> = Vec::new();
    push_le_u64(&mut len_bytes, payload.len() as u64);
    let mut out: Vec<u8> = Vec::new();
    append_bytes(&mut out, len_bytes.as_slice());
    push_le_u32(&mut out, masked_crc32c(len_bytes.as_slice()));
    append_bytes(&mut out, payload);
    push_le_u32(&mut out, masked_crc32c(payload));
    proof {
        assert(len_bytes@ =~= le_u64_bytes(payload@.len() as u64));
    }
    out
}

} // verus!
