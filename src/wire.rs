//! Protocol-buffer wire primitives: varints, field keys and the four field
//! encodings that the event messages use.
use vstd::prelude::*;

use crate::record::{append_bytes, le_u32_bytes, le_u64_bytes, push_le_u32, push_le_u64};

verus! {

/// The base-128 varint encoding of `n`, least significant group first.
pub open spec fn spec_varint(n: u64) -> Seq<u8>
    decreases n,
{
    if n < 128 {
        seq![n as u8]
    } else {
        seq![(n % 128 + 128) as u8] + spec_varint(n / 128)
    }
}

/// The key of field `field` with wire type `wire`.
pub open spec fn spec_key(field: u64, wire: u64) -> Seq<u8> {
    spec_varint((field * 8 + wire) as u64)
}

pub open spec fn varint_field(field: u64, v: u64) -> Seq<u8> {
    spec_key(field, 0) + spec_varint(v)
}

pub open spec fn fixed64_field(field: u64, v: u64) -> Seq<u8> {
    spec_key(field, 1) + le_u64_bytes(v)
}

pub open spec fn fixed32_field(field: u64, v: u32) -> Seq<u8> {
    spec_key(field, 5) + le_u32_bytes(v)
}

pub open spec fn bytes_field(field: u64, b: Seq<u8>) -> Seq<u8> {
    spec_key(field, 2) + spec_varint(b.len() as u64) + b
}

/// A scalar field as proto3 writes it: left out when it holds zero.
pub open spec fn opt_varint_field(field: u64, v: u64) -> Seq<u8> {
    if v == 0 {
        Seq::empty()
    } else {
        varint_field(field, v)
    }
}

/// Whether the bits of a double are those of positive or negative zero.
pub open spec fn is_zero_f64_bits(bits: u64) -> bool {
    bits == 0 || bits == 0x8000_0000_0000_0000u64
}

/// Whether the bits of a float are those of positive or negative zero.
pub open spec fn is_zero_f32_bits(bits: u32) -> bool {
    bits == 0 || bits == 0x8000_0000u32
}

/// A double field as proto3 writes it: left out when it holds zero.
pub open spec fn opt_double_field(field: u64, bits: u64) -> Seq<u8> {
    if is_zero_f64_bits(bits) {
        Seq::empty()
    } else {
        fixed64_field(field, bits)
    }
}

/// A float field as proto3 writes it: left out when it holds zero.
pub open spec fn opt_float_field(field: u64, bits: u32) -> Seq<u8> {
    if is_zero_f32_bits(bits) {
        Seq::empty()
    } else {
        fixed32_field(field, bits)
    }
}

/// A string or bytes field as proto3 writes it: left out when empty.
pub open spec fn opt_bytes_field(field: u64, b: Seq<u8>) -> Seq<u8> {
    if b.len() == 0 {
        Seq::empty()
    } else {
        bytes_field(field, b)
    }
}

/// The little-endian bytes of each double, one after another.
pub open spec fn packed_doubles(v: Seq<u64>) -> Seq<u8>
    decreases v.len(),
{
    if v.len() == 0 {
        Seq::empty()
    } else {
        packed_doubles(v.drop_last()) + le_u64_bytes(v.last())
    }
}

/// A packed repeated double field: left out when empty.
pub open spec fn packed_doubles_field(field: u64, v: Seq<u64>) -> Seq<u8> {
    opt_bytes_field(field, packed_doubles(v))
}

/// The little-endian bytes of each float bit pattern, one after another.
pub open spec fn packed_floats(v: Seq<u32>) -> Seq<u8>
    decreases v.len(),
{
    if v.len() == 0 {
        Seq::empty()
    } else {
        packed_floats(v.drop_last()) + le_u32_bytes(v.last())
    }
}

/// The varint of each number, one after another.
pub open spec fn packed_varints(v: Seq<u64>) -> Seq<u8>
    decreases v.len(),
{
    if v.len() == 0 {
        Seq::empty()
    } else {
        packed_varints(v.drop_last()) + spec_varint(v.last())
    }
}

/// How `int32` values are written: sign-extended to 64 bits.
pub open spec fn int32_words(v: Seq<i32>) -> Seq<u64> {
    v.map_values(|x: i32| (x as i64) as u64)
}

/// How `int64` values are written: as their two's-complement bits.
pub open spec fn int64_words(v: Seq<i64>) -> Seq<u64> {
    v.map_values(|x: i64| x as u64)
}

/// How `bool` values are written: 1 or 0.
pub open spec fn bool_words(v: Seq<bool>) -> Seq<u64> {
    v.map_values(|x: bool| if x { 1u64 } else { 0u64 })
}

/// Each byte string as a field of its own, in order.
pub open spec fn repeated_bytes_field(field: u64, v: Seq<Seq<u8>>) -> Seq<u8>
    decreases v.len(),
{
    if v.len() == 0 {
        Seq::empty()
    } else {
        repeated_bytes_field(field, v.drop_last()) + bytes_field(field, v.last())
    }
}

/// Appends the varint encoding of `n`.
pub fn put_varint(out: &mut Vec<u8>, n: u64)
    ensures
        final(out)@ == old(out)@ + spec_varint(n),
{
    let ghost start = out@;
    let mut v: u64 = n;
    while v >= 128
        invariant
            out@ + spec_varint(v) == start + spec_varint(n),
        decreases v,
    {
        let ghost prev = out@;
        out.push((v % 128 + 128) as u8);
        assert(out@ + spec_varint(v / 128) =~= prev + spec_varint(v));
        v = v / 128;
    }
    out.push(v as u8);
    assert(out@ =~= start + spec_varint(n));
}

pub fn put_key(out: &mut Vec<u8>, field: u64, wire: u64)
    requires
        field * 8 + wire <= u64::MAX,
    ensures
        final(out)@ == old(out)@ + spec_key(field, wire),
{
    put_varint(out, field * 8 + wire);
}

pub fn put_varint_field(out: &mut Vec<u8>, field: u64, v: u64)
    requires
        field <= 0xFFFF,
    ensures
        final(out)@ == old(out)@ + varint_field(field, v),
{
    let ghost start = out@;
    put_key(out, field, 0);
    put_varint(out, v);
    assert(out@ =~= start + varint_field(field, v));
}

pub fn put_opt_varint_field(out: &mut Vec<u8>, field: u64, v: u64)
    requires
        field <= 0xFFFF,
    ensures
        final(out)@ == old(out)@ + opt_varint_field(field, v),
{
    if v == 0 {
        assert(out@ =~= out@ + Seq::<u8>::empty());
    } else {
        put_varint_field(out, field, v);
    }
}

pub fn put_fixed64_field(out: &mut Vec<u8>, field: u64, v: u64)
    requires
        field <= 0xFFFF,
    ensures
        final(out)@ == old(out)@ + fixed64_field(field, v),
{
    let ghost start = out@;
    put_key(out, field, 1);
    push_le_u64(out, v);
    assert(out@ =~= start + fixed64_field(field, v));
}

pub fn put_fixed32_field(out: &mut Vec<u8>, field: u64, v: u32)
    requires
        field <= 0xFFFF,
    ensures
        final(out)@ == old(out)@ + fixed32_field(field, v),
{
    let ghost start = out@;
    put_key(out, field, 5);
    push_le_u32(out, v);
    assert(out@ =~= start + fixed32_field(field, v));
}

pub fn put_opt_double_field(out: &mut Vec<u8>, field: u64, bits: u64)
    requires
        field <= 0xFFFF,
    ensures
        final(out)@ == old(out)@ + opt_double_field(field, bits),
{
    if bits == 0 || bits == 0x8000_0000_0000_0000u64 {
        assert(out@ =~= out@ + Seq::<u8>::empty());
    } else {
        put_fixed64_field(out, field, bits);
    }
}

pub fn put_opt_float_field(out: &mut Vec<u8>, field: u64, bits: u32)
    requires
        field <= 0xFFFF,
    ensures
        final(out)@ == old(out)@ + opt_float_field(field, bits),
{
    if bits == 0 || bits == 0x8000_0000u32 {
        assert(out@ =~= out@ + Seq::<u8>::empty());
    } else {
        put_fixed32_field(out, field, bits);
    }
}

pub fn put_bytes_field(out: &mut Vec<u8>, field: u64, b: &[u8])
    requires
        field <= 0xFFFF,
    ensures
        final(out)@ == old(out)@ + bytes_field(field, b@),
{
    let ghost start = out@;
    put_key(out, field, 2);
    put_varint(out, b.len() as u64);
    append_bytes(out, b);
    assert(out@ =~= start + bytes_field(field, b@));
}

pub fn put_opt_bytes_field(out: &mut Vec<u8>, field: u64, b: &[u8])
    requires
        field <= 0xFFFF,
    ensures
        final(out)@ == old(out)@ + opt_bytes_field(field, b@),
{
    if b.len() == 0 {
        assert(out@ =~= out@ + Seq::<u8>::empty());
    } else {
        put_bytes_field(out, field, b);
    }
}

/// The packed bytes of `v`.
pub fn pack_doubles(v: &Vec<u64>) -> (r: Vec<u8>)
    ensures
        r@ == packed_doubles(v@),
{
    let mut out: Vec<u8> = Vec::new();
    let mut i: usize = 0;
    while i < v.len()
        invariant
            i <= v@.len(),
            out@ == packed_doubles(v@.take(i as int)),
        decreases v@.len() - i,
    {
        push_le_u64(&mut out, v[i]);
        assert(v@.take(i + 1).drop_last() =~= v@.take(i as int));
        i = i + 1;
    }
    assert(v@.take(v@.len() as int) =~= v@);
    out
}

/// The packed bytes of `v`.
pub fn pack_floats(v: &Vec<u32>) -> (r: Vec<u8>)
    ensures
        r@ == packed_floats(v@),
{
    let mut out: Vec<u8> = Vec::new();
    let mut i: usize = 0;
    while i < v.len()
        invariant
            i <= v@.len(),
            out@ == packed_floats(v@.take(i as int)),
        decreases v@.len() - i,
    {
        let x = v[i];
        push_le_u32(&mut out, x);
        assert(v@.take(i + 1).drop_last() =~= v@.take(i as int));
        i = i + 1;
    }
    assert(v@.take(v@.len() as int) =~= v@);
    out
}

/// The packed bytes of `v`.
pub fn pack_int32s(v: &Vec<i32>) -> (r: Vec<u8>)
    ensures
        r@ == packed_varints(int32_words(v@)),
{
    let mut out: Vec<u8> = Vec::new();
    let mut i: usize = 0;
    while i < v.len()
        invariant
            i <= v@.len(),
            out@ == packed_varints(int32_words(v@.take(i as int))),
        decreases v@.len() - i,
    {
        let x = v[i];
        put_varint(&mut out, x as i64 as u64);
        assert(v@.take(i + 1).drop_last() =~= v@.take(i as int));
        assert(int32_words(v@.take(i + 1)).drop_last() =~= int32_words(v@.take(i as int)));
        i = i + 1;
    }
    assert(v@.take(v@.len() as int) =~= v@);
    out
}

/// The packed bytes of `v`.
pub fn pack_int64s(v: &Vec<i64>) -> (r: Vec<u8>)
    ensures
        r@ == packed_varints(int64_words(v@)),
{
    let mut out: Vec<u8> = Vec::new();
    let mut i: usize = 0;
    while i < v.len()
        invariant
            i <= v@.len(),
            out@ == packed_varints(int64_words(v@.take(i as int))),
        decreases v@.len() - i,
    {
        let x = v[i];
        put_varint(&mut out, x as u64);
        assert(v@.take(i + 1).drop_last() =~= v@.take(i as int));
        assert(int64_words(v@.take(i + 1)).drop_last() =~= int64_words(v@.take(i as int)));
        i = i + 1;
    }
    assert(v@.take(v@.len() as int) =~= v@);
    out
}

/// The packed bytes of `v`.
pub fn pack_bools(v: &Vec<bool>) -> (r: Vec<u8>)
    ensures
        r@ == packed_varints(bool_words(v@)),
{
    let mut out: Vec<u8> = Vec::new();
    let mut i: usize = 0;
    while i < v.len()
        invariant
            i <= v@.len(),
            out@ == packed_varints(bool_words(v@.take(i as int))),
        decreases v@.len() - i,
    {
        let x = v[i];
        put_varint(&mut out, if x { 1 } else { 0 });
        assert(v@.take(i + 1).drop_last() =~= v@.take(i as int));
        assert(bool_words(v@.take(i + 1)).drop_last() =~= bool_words(v@.take(i as int)));
        i = i + 1;
    }
    assert(v@.take(v@.len() as int) =~= v@);
    out
}

pub fn put_packed_doubles_field(out: &mut Vec<u8>, field: u64, v: &Vec<u64>)
    requires
        field <= 0xFFFF,
    ensures
        final(out)@ == old(out)@ + packed_doubles_field(field, v@),
{
    if v.len() == 0 {
        assert(out@ =~= out@ + Seq::<u8>::empty());
    } else {
        let packed = pack_doubles(v);
        put_bytes_field(out, field, packed.as_slice());
    }
}

pub fn put_repeated_bytes_field(out: &mut Vec<u8>, field: u64, v: &Vec<Vec<u8>>)
    requires
        field <= 0xFFFF,
    ensures
        final(out)@ == old(out)@ + repeated_bytes_field(field, v@.map_values(|b: Vec<u8>| b@)),
{
    let ghost start = out@;
    let ghost all = v@.map_values(|b: Vec<u8>| b@);
    let mut i: usize = 0;
    while i < v.len()
        invariant
            i <= v@.len(),
            all == v@.map_values(|b: Vec<u8>| b@),
            out@ == start + repeated_bytes_field(field, all.take(i as int)),
            field <= 0xFFFF,
        decreases v@.len() - i,
    {
        assert(all.take(i + 1).drop_last() =~= all.take(i as int));
        put_bytes_field(out, field, v[i].as_slice());
        i = i + 1;
        assert(out@ =~= start + repeated_bytes_field(field, all.take(i as int)));
    }
    assert(all.take(v@.len() as int) =~= all);
}

} // verus!
