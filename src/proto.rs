//! The event messages and their protocol-buffer encoding.
//!
//! Floating-point fields are held as their IEEE-754 bit patterns.
use vstd::prelude::*;
use vstd::utf8::encode_utf8;

use crate::wire::{
    bool_words, int32_words, int64_words, pack_bools, pack_doubles, pack_floats, pack_int32s,
    pack_int64s, packed_doubles, packed_floats, packed_varints, bytes_field, fixed32_field, opt_bytes_field, opt_double_field, opt_float_field,
    opt_varint_field, packed_doubles_field, put_bytes_field, put_fixed32_field,
    put_opt_bytes_field, put_opt_double_field, put_opt_float_field, put_opt_varint_field,
    put_packed_doubles_field, put_repeated_bytes_field, repeated_bytes_field,
};

verus! {

/// The tensor element type of a string tensor.
pub const DT_STRING: i32 = 7;

#[derive(Debug)]
pub struct PluginData {
    pub plugin_name: String,
    pub content: Vec<u8>,
}

#[derive(Debug)]
pub struct SummaryMetadata {
    pub plugin_data: Option<PluginData>,
    pub display_name: String,
    pub summary_description: String,
    pub data_class: i32,
}

#[derive(Debug)]
pub struct Dim {
    pub size: i64,
    pub name: String,
}

#[derive(Debug)]
pub struct TensorShapeProto {
    pub dim: Vec<Dim>,
    pub unknown_rank: bool,
}

#[derive(Debug)]
pub struct TensorProto {
    pub dtype: i32,
    pub tensor_shape: TensorShapeProto,
    pub version_number: i32,
    pub tensor_content: Vec<u8>,
    /// `float` elements, as bit patterns.
    pub float_val: Vec<u32>,
    /// `double` elements, as bit patterns.
    pub double_val: Vec<u64>,
    pub int_val: Vec<i32>,
    pub string_val: Vec<Vec<u8>>,
    pub int64_val: Vec<i64>,
    pub bool_val: Vec<bool>,
}

/// A histogram; each double is held as its bit pattern.
#[derive(Debug)]
pub struct HistogramProto {
    pub min: u64,
    pub max: u64,
    pub num: u64,
    pub sum: u64,
    pub sum_squares: u64,
    pub bucket_limit: Vec<u64>,
    pub bucket: Vec<u64>,
}

#[derive(Debug)]
pub struct Image {
    pub height: i32,
    pub width: i32,
    pub colorspace: i32,
    pub encoded_image_string: Vec<u8>,
}

/// An audio clip; `sample_rate` is the bit pattern of a float.
#[derive(Debug)]
pub struct Audio {
    pub sample_rate: u32,
    pub num_channels: i64,
    pub length_frames: i64,
    pub encoded_audio_string: Vec<u8>,
    pub content_type: String,
}

/// The payload of a summary value.
#[derive(Debug)]
pub enum ValueKind {
    /// A scalar, as the bit pattern of a float.
    SimpleValue(u32),
    Image(Image),
    Histo(HistogramProto),
    Audio(Audio),
    Tensor(TensorProto),
}

#[derive(Debug)]
pub struct Value {
    pub node_name: String,
    pub tag: String,
    pub metadata: Option<SummaryMetadata>,
    pub value: Option<ValueKind>,
}

#[derive(Debug)]
pub struct Summary {
    pub value: Vec<Value>,
}

/// One log entry; `wall_time` is the bit pattern of a double holding
/// seconds since the Unix epoch.
#[derive(Debug)]
pub struct Event {
    pub wall_time: u64,
    pub step: i64,
    pub summary: Option<Summary>,
}

pub open spec fn utf8(s: String) -> Seq<u8> {
    encode_utf8(s@)
}

/// How an `int32` field is written: sign-extended to 64 bits.
pub open spec fn i32_wire(v: i32) -> u64 {
    (v as i64) as u64
}

pub open spec fn plugin_data_bytes(p: PluginData) -> Seq<u8> {
    opt_bytes_field(1, utf8(p.plugin_name)) + opt_bytes_field(2, p.content@)
}

pub open spec fn metadata_bytes(m: SummaryMetadata) -> Seq<u8> {
    (match m.plugin_data {
        Some(p) => bytes_field(1, plugin_data_bytes(p)),
        None => Seq::empty(),
    }) + opt_bytes_field(2, utf8(m.display_name)) + opt_bytes_field(
        3,
        utf8(m.summary_description),
    ) + opt_varint_field(4, i32_wire(m.data_class))
}

pub open spec fn dim_bytes(d: Dim) -> Seq<u8> {
    opt_varint_field(1, d.size as u64) + opt_bytes_field(2, utf8(d.name))
}

pub open spec fn dims_bytes(ds: Seq<Dim>) -> Seq<u8>
    decreases ds.len(),
{
    if ds.len() == 0 {
        Seq::empty()
    } else {
        dims_bytes(ds.drop_last()) + bytes_field(2, dim_bytes(ds.last()))
    }
}

pub open spec fn shape_bytes(s: TensorShapeProto) -> Seq<u8> {
    dims_bytes(s.dim@) + opt_varint_field(
        3,
        if s.unknown_rank {
            1
        } else {
            0
        },
    )
}

pub open spec fn string_vals(t: TensorProto) -> Seq<Seq<u8>> {
    t.string_val@.map_values(|b: Vec<u8>| b@)
}

pub open spec fn tensor_bytes(t: TensorProto) -> Seq<u8> {
    opt_varint_field(1, i32_wire(t.dtype)) + bytes_field(2, shape_bytes(t.tensor_shape))
        + opt_varint_field(3, i32_wire(t.version_number)) + opt_bytes_field(4, t.tensor_content@)
        + opt_bytes_field(5, packed_floats(t.float_val@)) + opt_bytes_field(
        6,
        packed_doubles(t.double_val@),
    ) + opt_bytes_field(7, packed_varints(int32_words(t.int_val@))) + repeated_bytes_field(
        8,
        string_vals(t),
    ) + opt_bytes_field(10, packed_varints(int64_words(t.int64_val@))) + opt_bytes_field(
        11,
        packed_varints(bool_words(t.bool_val@)),
    )
}

pub open spec fn histogram_bytes(h: HistogramProto) -> Seq<u8> {
    opt_double_field(1, h.min) + opt_double_field(2, h.max) + opt_double_field(3, h.num)
        + opt_double_field(4, h.sum) + opt_double_field(5, h.sum_squares) + packed_doubles_field(
        6,
        h.bucket_limit@,
    ) + packed_doubles_field(7, h.bucket@)
}

pub open spec fn image_bytes(i: Image) -> Seq<u8> {
    opt_varint_field(1, i32_wire(i.height)) + opt_varint_field(2, i32_wire(i.width))
        + opt_varint_field(3, i32_wire(i.colorspace)) + opt_bytes_field(4, i.encoded_image_string@)
}

pub open spec fn audio_bytes(a: Audio) -> Seq<u8> {
    opt_float_field(1, a.sample_rate) + opt_varint_field(2, a.num_channels as u64)
        + opt_varint_field(3, a.length_frames as u64) + opt_bytes_field(4, a.encoded_audio_string@)
        + opt_bytes_field(5, utf8(a.content_type))
}

pub open spec fn kind_bytes(k: ValueKind) -> Seq<u8> {
    match k {
        ValueKind::SimpleValue(bits) => fixed32_field(2, bits),
        ValueKind::Image(i) => bytes_field(4, image_bytes(i)),
        ValueKind::Histo(h) => bytes_field(5, histogram_bytes(h)),
        ValueKind::Audio(a) => bytes_field(6, audio_bytes(a)),
        ValueKind::Tensor(t) => bytes_field(8, tensor_bytes(t)),
    }
}

pub open spec fn value_bytes(v: Value) -> Seq<u8> {
    opt_bytes_field(7, utf8(v.node_name)) + opt_bytes_field(1, utf8(v.tag)) + (match v.metadata {
        Some(m) => bytes_field(9, metadata_bytes(m)),
        None => Seq::empty(),
    }) + (match v.value {
        Some(k) => kind_bytes(k),
        None => Seq::empty(),
    })
}

pub open spec fn values_bytes(vs: Seq<Value>) -> Seq<u8>
    decreases vs.len(),
{
    if vs.len() == 0 {
        Seq::empty()
    } else {
        values_bytes(vs.drop_last()) + bytes_field(1, value_bytes(vs.last()))
    }
}

pub open spec fn summary_bytes(s: Summary) -> Seq<u8> {
    values_bytes(s.value@)
}

/// The encoded form of an event.
pub open spec fn event_bytes(e: Event) -> Seq<u8> {
    opt_double_field(1, e.wall_time) + opt_varint_field(2, e.step as u64) + (match e.summary {
        Some(s) => bytes_field(5, summary_bytes(s)),
        None => Seq::empty(),
    })
}

fn put_str_field(out: &mut Vec<u8>, field: u64, s: &String)
    requires
        field <= 0xFFFF,
    ensures
        final(out)@ == old(out)@ + opt_bytes_field(field, utf8(*s)),
{
    put_opt_bytes_field(out, field, s.as_str().as_bytes());
}

pub fn encode_plugin_data(p: &PluginData) -> (r: Vec<u8>)
    ensures
        r@ == plugin_data_bytes(*p),
{
    let mut out: Vec<u8> = Vec::new();
    put_str_field(&mut out, 1, &p.plugin_name);
    put_opt_bytes_field(&mut out, 2, p.content.as_slice());
    assert(out@ =~= plugin_data_bytes(*p));
    out
}

pub fn encode_metadata(m: &SummaryMetadata) -> (r: Vec<u8>)
    ensures
        r@ == metadata_bytes(*m),
{
    let mut out: Vec<u8> = Vec::new();
    match &m.plugin_data {
        Some(p) => {
            let inner = encode_plugin_data(p);
            put_bytes_field(&mut out, 1, inner.as_slice());
        },
        None => {},
    }
    put_str_field(&mut out, 2, &m.display_name);
    put_str_field(&mut out, 3, &m.summary_description);
    put_opt_varint_field(&mut out, 4, m.data_class as i64 as u64);
    assert(out@ =~= metadata_bytes(*m));
    out
}

pub fn encode_dim(d: &Dim) -> (r: Vec<u8>)
    ensures
        r@ == dim_bytes(*d),
{
    let mut out: Vec<u8> = Vec::new();
    put_opt_varint_field(&mut out, 1, d.size as u64);
    put_str_field(&mut out, 2, &d.name);
    assert(out@ =~= dim_bytes(*d));
    out
}

pub fn encode_shape(s: &TensorShapeProto) -> (r: Vec<u8>)
    ensures
        r@ == shape_bytes(*s),
{
    let mut out: Vec<u8> = Vec::new();
    let mut i: usize = 0;
    while i < s.dim.len()
        invariant
            i <= s.dim@.len(),
            out@ == dims_bytes(s.dim@.take(i as int)),
        decreases s.dim@.len() - i,
    {
        assert(s.dim@.take(i + 1).drop_last() =~= s.dim@.take(i as int));
        let inner = encode_dim(&s.dim[i]);
        put_bytes_field(&mut out, 2, inner.as_slice());
        i = i + 1;
    }
    assert(s.dim@.take(s.dim@.len() as int) =~= s.dim@);
    put_opt_varint_field(
        &mut out,
        3,
        if s.unknown_rank {
            1
        } else {
            0
        },
    );
    out
}

pub fn encode_tensor(t: &TensorProto) -> (r: Vec<u8>)
    ensures
        r@ == tensor_bytes(*t),
{
    let mut out: Vec<u8> = Vec::new();
    put_opt_varint_field(&mut out, 1, t.dtype as i64 as u64);
    let shape = encode_shape(&t.tensor_shape);
    put_bytes_field(&mut out, 2, shape.as_slice());
    put_opt_varint_field(&mut out, 3, t.version_number as i64 as u64);
    put_opt_bytes_field(&mut out, 4, t.tensor_content.as_slice());
    let floats = pack_floats(&t.float_val);
    put_opt_bytes_field(&mut out, 5, floats.as_slice());
    let doubles = pack_doubles(&t.double_val);
    put_opt_bytes_field(&mut out, 6, doubles.as_slice());
    let ints = pack_int32s(&t.int_val);
    put_opt_bytes_field(&mut out, 7, ints.as_slice());
    put_repeated_bytes_field(&mut out, 8, &t.string_val);
    let int64s = pack_int64s(&t.int64_val);
    put_opt_bytes_field(&mut out, 10, int64s.as_slice());
    let bools = pack_bools(&t.bool_val);
    put_opt_bytes_field(&mut out, 11, bools.as_slice());
    assert(out@ =~= tensor_bytes(*t));
    out
}

pub fn encode_histogram(h: &HistogramProto) -> (r: Vec<u8>)
    ensures
        r@ == histogram_bytes(*h),
{
    let mut out: Vec<u8> = Vec::new();
    put_opt_double_field(&mut out, 1, h.min);
    put_opt_double_field(&mut out, 2, h.max);
    put_opt_double_field(&mut out, 3, h.num);
    put_opt_double_field(&mut out, 4, h.sum);
    put_opt_double_field(&mut out, 5, h.sum_squares);
    put_packed_doubles_field(&mut out, 6, &h.bucket_limit);
    put_packed_doubles_field(&mut out, 7, &h.bucket);
    assert(out@ =~= histogram_bytes(*h));
    out
}

pub fn encode_image(i: &Image) -> (r: Vec<u8>)
    ensures
        r@ == image_bytes(*i),
{
    let mut out: Vec<u8> = Vec::new();
    put_opt_varint_field(&mut out, 1, i.height as i64 as u64);
    put_opt_varint_field(&mut out, 2, i.width as i64 as u64);
    put_opt_varint_field(&mut out, 3, i.colorspace as i64 as u64);
    put_opt_bytes_field(&mut out, 4, i.encoded_image_string.as_slice());
    assert(out@ =~= image_bytes(*i));
    out
}

pub fn encode_audio(a: &Audio) -> (r: Vec<u8>)
    ensures
        r@ == audio_bytes(*a),
{
    let mut out: Vec<u8> = Vec::new();
    put_opt_float_field(&mut out, 1, a.sample_rate);
    put_opt_varint_field(&mut out, 2, a.num_channels as u64);
    put_opt_varint_field(&mut out, 3, a.length_frames as u64);
    put_opt_bytes_field(&mut out, 4, a.encoded_audio_string.as_slice());
    put_str_field(&mut out, 5, &a.content_type);
    assert(out@ =~= audio_bytes(*a));
    out
}

fn put_kind(out: &mut Vec<u8>, k: &ValueKind)
    ensures
        final(out)@ == old(out)@ + kind_bytes(*k),
{
    match k {
        ValueKind::SimpleValue(bits) => put_fixed32_field(out, 2, *bits),
        ValueKind::Image(i) => {
            let inner = encode_image(i);
            put_bytes_field(out, 4, inner.as_slice());
        },
        ValueKind::Histo(h) => {
            let inner = encode_histogram(h);
            put_bytes_field(out, 5, inner.as_slice());
        },
        ValueKind::Audio(a) => {
            let inner = encode_audio(a);
            put_bytes_field(out, 6, inner.as_slice());
        },
        ValueKind::Tensor(t) => {
            let inner = encode_tensor(t);
            put_bytes_field(out, 8, inner.as_slice());
        },
    }
}

pub fn encode_value(v: &Value) -> (r: Vec<u8>)
    ensures
        r@ == value_bytes(*v),
{
    let mut out: Vec<u8> = Vec::new();
    put_str_field(&mut out, 7, &v.node_name);
    put_str_field(&mut out, 1, &v.tag);
    match &v.metadata {
        Some(m) => {
            let inner = encode_metadata(m);
            put_bytes_field(&mut out, 9, inner.as_slice());
        },
        None => {},
    }
    match &v.value {
        Some(k) => put_kind(&mut out, k),
        None => {},
    }
    assert(out@ =~= value_bytes(*v));
    out
}

pub fn encode_summary(s: &Summary) -> (r: Vec<u8>)
    ensures
        r@ == summary_bytes(*s),
{
    let mut out: Vec<u8> = Vec::new();
    let mut i: usize = 0;
    while i < s.value.len()
        invariant
            i <= s.value@.len(),
            out@ == values_bytes(s.value@.take(i as int)),
        decreases s.value@.len() - i,
    {
        assert(s.value@.take(i + 1).drop_last() =~= s.value@.take(i as int));
        let inner = encode_value(&s.value[i]);
        put_bytes_field(&mut out, 1, inner.as_slice());
        i = i + 1;
    }
    assert(s.value@.take(s.value@.len() as int) =~= s.value@);
    out
}

/// The encoded form of `e`.
pub fn encode_event(e: &Event) -> (r: Vec<u8>)
    ensures
        r@ == event_bytes(*e),
{
    let mut out: Vec<u8> = Vec::new();
    put_opt_double_field(&mut out, 1, e.wall_time);
    put_opt_varint_field(&mut out, 2, e.step as u64);
    match &e.summary {
        Some(s) => {
            let inner = encode_summary(s);
            put_bytes_field(&mut out, 5, inner.as_slice());
        },
        None => {},
    }
    assert(out@ =~= event_bytes(*e));
    out
}

} // verus!
