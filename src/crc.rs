//! CRC32C (Castagnoli) and the masked checksum that record frames carry.
use vstd::prelude::*;

verus! {

/// The reflected Castagnoli polynomial.
pub const CASTAGNOLI: u32 = 0x82F6_3B78;

/// The constant added by the checksum mask.
pub const MASK_DELTA: u32 = 0xA282_EAD8;

/// One shift of the reflected CRC register.
pub open spec fn crc_bit_step(s: u32) -> u32 {
    if s & 1 == 1 {
        (s >> 1) ^ 0x82F6_3B78u32
    } else {
        s >> 1
    }
}

/// `n` shifts of the register.
pub open spec fn crc_steps(s: u32, n: nat) -> u32
    decreases n,
{
    if n == 0 {
        s
    } else {
        crc_steps(crc_bit_step(s), (n - 1) as nat)
    }
}

/// Feeding one byte into the register.
pub open spec fn crc_byte_step(s: u32, b: u8) -> u32 {
    crc_steps(s ^ (b as u32), 8)
}

/// The register after feeding all of `bytes`, starting from all ones.
pub open spec fn crc_state(bytes: Seq<u8>) -> u32
    decreases bytes.len(),
{
    if bytes.len() == 0 {
        0xFFFF_FFFFu32
    } else {
        crc_byte_step(crc_state(bytes.drop_last()), bytes.last())
    }
}

/// The standard CRC32C of `bytes`.
pub open spec fn spec_crc32c(bytes: Seq<u8>) -> u32 {
    crc_state(bytes) ^ 0xFFFF_FFFFu32
}

/// Rotate right by 15 bits, then add the mask constant modulo 2^32.
pub open spec fn mask(c: u32) -> u32 {
    (((c >> 15u32) | (c << 17u32)) + 0xA282_EAD8u32) as u32
}

/// The masked CRC32C of `bytes`.
pub open spec fn spec_masked_crc32c(bytes: Seq<u8>) -> u32 {
    mask(spec_crc32c(bytes))
}

proof fn lemma_bit_step_xor(a: u32, b: u32)
    ensures
        crc_bit_step(a ^ b) == crc_bit_step(a) ^ crc_bit_step(b),
        a != 0 ==> crc_bit_step(a) != 0,
{
    assert(crc_bit_step(a ^ b) == crc_bit_step(a) ^ crc_bit_step(b)) by (bit_vector);
    assert(a != 0 ==> crc_bit_step(a) != 0) by (bit_vector);
}

proof fn lemma_steps_xor(a: u32, b: u32, n: nat)
    ensures
        crc_steps(a ^ b, n) == crc_steps(a, n) ^ crc_steps(b, n),
        a != 0 ==> crc_steps(a, n) != 0,
    decreases n,
{
    if n > 0 {
        lemma_bit_step_xor(a, b);
        lemma_steps_xor(crc_bit_step(a), crc_bit_step(b), (n - 1) as nat);
    }
}

/// The register changes under a change of the state or of the byte fed in,
/// as long as the two changes do not cancel.
proof fn lemma_byte_step_differs(x1: u32, x2: u32, b1: u8, b2: u8)
    requires
        (x1 ^ x2) != ((b1 as u32) ^ (b2 as u32)),
    ensures
        crc_byte_step(x1, b1) != crc_byte_step(x2, b2),
{
    let d1 = x1 ^ (b1 as u32);
    let d2 = x2 ^ (b2 as u32);
    assert(d1 ^ d2 != 0) by (bit_vector)
        requires
            d1 == x1 ^ (b1 as u32),
            d2 == x2 ^ (b2 as u32),
            (x1 ^ x2) != ((b1 as u32) ^ (b2 as u32)),
    ;
    lemma_steps_xor(d1, d2, 8);
    lemma_steps_xor(d1 ^ d2, 0, 8);
    let r1 = crc_steps(d1, 8);
    let r2 = crc_steps(d2, 8);
    assert(r1 ^ r2 != 0 ==> r1 != r2) by (bit_vector);
}

/// Two byte strings of one length that differ in exactly one position
/// leave the register in different states.
proof fn lemma_state_single_change(s1: Seq<u8>, s2: Seq<u8>, k: int)
    requires
        s1.len() == s2.len(),
        0 <= k < s1.len(),
        s1[k] != s2[k],
        forall|i: int| 0 <= i < s1.len() && i != k ==> s1[i] == s2[i],
    ensures
        crc_state(s1) != crc_state(s2),
    decreases s1.len(),
{
    let head_a = s1.drop_last();
    let head_b = s2.drop_last();
    let x1 = crc_state(head_a);
    let x2 = crc_state(head_b);
    let b1 = s1.last();
    let b2 = s2.last();
    if k == s1.len() - 1 {
        assert(head_a =~= head_b);
        assert(x1 ^ x2 == 0 && (b1 as u32) ^ (b2 as u32) != 0) by (bit_vector)
            requires
                x1 == x2,
                b1 != b2,
        ;
    } else {
        lemma_state_single_change(head_a, head_b, k);
        assert(x1 ^ x2 != 0 && (b1 as u32) ^ (b2 as u32) == 0) by (bit_vector)
            requires
                x1 != x2,
                b1 == b2,
        ;
    }
    lemma_byte_step_differs(x1, x2, b1, b2);
}

proof fn lemma_mask_injective(a: u32, b: u32)
    ensures
        a != b ==> mask(a) != mask(b),
{
    assert(a != b ==> (((a >> 15u32) | (a << 17u32)) + 0xA282_EAD8u32) as u32 != (((b >> 15u32)
        | (b << 17u32)) + 0xA282_EAD8u32) as u32) by (bit_vector);
}

/// Changing one byte of a byte string changes its masked CRC32C.
pub proof fn lemma_masked_crc32c_detects_byte_change(b1: Seq<u8>, b2: Seq<u8>, k: int)
    requires
        b1.len() == b2.len(),
        0 <= k < b1.len(),
        b1[k] != b2[k],
        forall|i: int| 0 <= i < b1.len() && i != k ==> b1[i] == b2[i],
    ensures
        spec_masked_crc32c(b1) != spec_masked_crc32c(b2),
{
    lemma_state_single_change(b1, b2, k);
    let c1 = crc_state(b1);
    let c2 = crc_state(b2);
    assert(c1 ^ 0xFFFF_FFFFu32 != c2 ^ 0xFFFF_FFFFu32) by (bit_vector)
        requires
            c1 != c2,
    ;
    lemma_mask_injective(spec_crc32c(b1), spec_crc32c(b2));
}

/// Flipping any single bit of a byte string changes its masked CRC32C.
pub proof fn lemma_masked_crc32c_detects_bit_flip(b: Seq<u8>, k: int, bit: u8)
    requires
        0 <= k < b.len(),
        bit < 8,
    ensures
        spec_masked_crc32c(b) != spec_masked_crc32c(
            b.update(k, b[k] ^ ((1u8 << bit) as u8)),
        ),
{
    let v = b[k];
    assert(v ^ ((1u8 << bit) as u8) != v) by (bit_vector)
        requires
            bit < 8,
    ;
    lemma_masked_crc32c_detects_byte_change(b, b.update(k, v ^ ((1u8 << bit) as u8)), k);
}

/// The CRC32C of `bytes`.
pub fn crc32c(bytes: &[u8]) -> (r: u32)
    ensures
        r == spec_crc32c(bytes@),
{
    let mut s: u32 = 0xFFFF_FFFF;
    let mut i: usize = 0;
    while i < bytes.len()
        invariant
            i <= bytes@.len(),
            s == crc_state(bytes@.take(i as int)),
        decreases bytes@.len() - i,
    {
        let ghost before = s;
        s = s ^ (bytes[i] as u32);
        let mut j: usize = 0;
        while j < 8
            invariant
                j <= 8,
                crc_steps(s, (8 - j) as nat) == crc_byte_step(before, bytes@[i as int]),
            decreases 8 - j,
        {
            s = if s & 1 == 1 {
                (s >> 1) ^ CASTAGNOLI
            } else {
                s >> 1
            };
            j = j + 1;
        }
        assert(bytes@.take(i + 1).drop_last() =~= bytes@.take(i as int));
        i = i + 1;
    }
    assert(bytes@.take(bytes@.len() as int) =~= bytes@);
    s ^ 0xFFFF_FFFF
}

/// The masked CRC32C of `bytes`: the CRC32C rotated right by 15 bits, plus
/// `0xA282EAD8` modulo 2^32.
pub fn masked_crc32c(bytes: &[u8]) -> (r: u32)
    ensures
        r == spec_masked_crc32c(bytes@),
{
    let c = crc32c(bytes);
    let rot = (c >> 15u32) | (c << 17u32);
    let r = rot.wrapping_add(MASK_DELTA);
    assert(r == (rot + 0xA282_EAD8u32) as u32) by (bit_vector)
        requires
            r == (if rot as int + 0xA282_EAD8u32 as int > u32::MAX as int {
                rot as int + 0xA282_EAD8u32 as int - 0x1_0000_0000int
            } else {
                rot as int + 0xA282_EAD8u32 as int
            }),
    ;
    r
}

} // verus!
