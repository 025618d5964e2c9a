//! Building summaries from typed values, and events from summaries.
use vstd::prelude::*;
use vstd::string::{StrSliceExecFns, StringExecFns};

use crate::decimal::{decimal, push_decimal};
use crate::error::Error;
use crate::proto::{
    utf8, Audio, Dim, Event, HistogramProto, Image, PluginData, Summary, SummaryMetadata,
    TensorProto, TensorShapeProto, Value, ValueKind, DT_STRING,
};

verus! {

/// The step of an event, and its wall time if the caller fixes it.
///
/// The wall time is the bit pattern of a double holding seconds since the
/// Unix epoch.
#[derive(Debug, Clone, Copy, PartialEq, Eq)]
pub struct EventInit {
    pub wall_time: Option<u64>,
    pub step: i64,
}

/// The wall time that an event built from `init` carries, where `now` is
/// the time at which it is built.
pub open spec fn chosen_wall_time(init: EventInit, now: u64) -> u64 {
    match init.wall_time {
        Some(t) => t,
        None => now,
    }
}

impl EventInit {
    /// An initializer with a step and a wall time.
    pub fn new(step: i64, wall_time: u64) -> (r: Self)
        ensures
            r.step == step,
            r.wall_time == Some(wall_time),
    {
        EventInit { wall_time: Some(wall_time), step }
    }

    /// An initializer with a step; the wall time is taken when the event is built.
    pub fn with_step(step: i64) -> (r: Self)
        ensures
            r.step == step,
            r.wall_time is None,
    {
        EventInit { wall_time: None, step }
    }

    /// The wall time and step of the event, `now` standing in for a wall
    /// time that was not given.
    pub fn to_parts(self, now: u64) -> (r: (u64, i64))
        ensures
            r.0 == chosen_wall_time(self, now),
            r.1 == self.step,
    {
        let wall_time = match self.wall_time {
            Some(t) => t,
            None => now,
        };
        (wall_time, self.step)
    }

    /// An event without a summary.
    pub fn build_empty(self, now: u64) -> (r: Event)
        ensures
            r.wall_time == chosen_wall_time(self, now),
            r.step == self.step,
            r.summary is None,
    {
        let (wall_time, step) = self.to_parts(now);
        Event { wall_time, step, summary: None }
    }

    /// An event that carries `summary`.
    pub fn build_with_summary(self, summary: Summary, now: u64) -> (r: Event)
        ensures
            r.wall_time == chosen_wall_time(self, now),
            r.step == self.step,
            r.summary == Some(summary),
    {
        let (wall_time, step) = self.to_parts(now);
        Event { wall_time, step, summary: Some(summary) }
    }
}

impl From<i64> for EventInit {
    fn from(step: i64) -> (r: Self) {
        Self::with_step(step)
    }
}

impl vstd::std_specs::convert::FromSpecImpl<i64> for EventInit {
    open spec fn obeys_from_spec() -> bool {
        true
    }

    open spec fn from_spec(step: i64) -> Self {
        EventInit { wall_time: None, step }
    }
}

/// `v` has no node name, the given tag and metadata, and carries `kind`.
pub open spec fn value_is(v: Value, tag: Seq<char>, kind: ValueKind) -> bool {
    &&& v.node_name@ == Seq::<char>::empty()
    &&& v.tag@ == tag
    &&& v.metadata is None
    &&& v.value == Some(kind)
}

/// `s` holds exactly one value, tagged `tag`, without metadata, carrying `kind`.
pub open spec fn single_value_summary(s: Summary, tag: Seq<char>, kind: ValueKind) -> bool {
    &&& s.value@.len() == 1
    &&& value_is(s.value@[0], tag, kind)
}

pub open spec fn text_plugin_name() -> Seq<char> {
    seq!['t', 'e', 'x', 't']
}

/// `v` is the text value of `text` under `tag`: a rank-1, size-1 string
/// tensor holding the UTF-8 bytes of `text`, with metadata naming the text
/// plugin and holding `text` as description.
pub open spec fn is_text_value(v: Value, tag: Seq<char>, text: Seq<char>) -> bool {
    &&& v.node_name@ == Seq::<char>::empty()
    &&& v.tag@ == tag
    &&& v.metadata matches Some(m) && {
        &&& m.plugin_data matches Some(p) && p.plugin_name@ == text_plugin_name()
            && p.content@ == Seq::<u8>::empty()
        &&& m.display_name@ == Seq::<char>::empty()
        &&& m.summary_description@ == text
        &&& m.data_class == 0
    }
    &&& v.value matches Some(ValueKind::Tensor(t)) && {
        &&& t.dtype == DT_STRING
        &&& t.tensor_shape.dim@.len() == 1
        &&& t.tensor_shape.dim@[0].size == 1
        &&& t.tensor_shape.dim@[0].name@ == Seq::<char>::empty()
        &&& !t.tensor_shape.unknown_rank
        &&& t.version_number == 0
        &&& t.tensor_content@ == Seq::<u8>::empty()
        &&& t.float_val@.len() == 0 && t.double_val@.len() == 0 && t.int_val@.len() == 0
        &&& t.int64_val@.len() == 0 && t.bool_val@.len() == 0
        &&& t.string_val@.len() == 1
        &&& t.string_val@[0]@ == encode_utf8_of(text)
    }
}

pub open spec fn encode_utf8_of(text: Seq<char>) -> Seq<u8> {
    vstd::utf8::encode_utf8(text)
}

pub open spec fn image_word() -> Seq<char> {
    seq!['/', 'i', 'm', 'a', 'g', 'e']
}

/// The tag of image `i` of `n` under `tag`: `{tag}/image` for a single
/// image, `{tag}/image/{i}` otherwise.
pub open spec fn image_tag(tag: Seq<char>, n: nat, i: nat) -> Seq<char> {
    if n == 1 {
        tag + image_word()
    } else {
        tag + image_word() + seq!['/'] + decimal(i)
    }
}

/// `s` holds exactly the text value of `text` under `tag`.
pub open spec fn is_text_summary(s: Summary, tag: Seq<char>, text: Seq<char>) -> bool {
    s.value@.len() == 1 && is_text_value(s.value@[0], tag, text)
}

/// `s` holds one value per image, in order, tagged as `image_tag` says.
pub open spec fn is_image_list_summary(s: Summary, tag: Seq<char>, images: Seq<Image>) -> bool {
    &&& s.value@.len() == images.len()
    &&& forall|i: int|
        0 <= i < images.len() ==> #[trigger] value_is(
            s.value@[i],
            image_tag(tag, images.len(), i as nat),
            ValueKind::Image(images[i]),
        )
}

/// The tag under which summaries are built.
#[derive(Debug)]
pub struct SummaryInit {
    pub tag: String,
}

fn empty_string() -> (r: String)
    ensures
        r@ == Seq::<char>::empty(),
{
    String::new()
}

impl SummaryInit {
    /// An initializer with a tag.
    pub fn new(tag: String) -> (r: Self)
        ensures
            r.tag@ == tag@,
    {
        SummaryInit { tag }
    }

    fn single(self, kind: ValueKind) -> (r: Summary)
        ensures
            single_value_summary(r, self.tag@, kind),
    {
        let v = Value { node_name: empty_string(), tag: self.tag, metadata: None, value: Some(kind) };
        let mut values: Vec<Value> = Vec::new();
        values.push(v);
        Summary { value: values }
    }

    /// A scalar summary; `value` is the bit pattern of a float.
    pub fn build_scalar(self, value: u32) -> (r: Result<Summary, Error>)
        ensures
            r matches Ok(s) && single_value_summary(s, self.tag@, ValueKind::SimpleValue(value)),
    {
        Ok(self.single(ValueKind::SimpleValue(value)))
    }

    /// A text summary: a rank-1, size-1 string tensor holding `value`,
    /// with metadata of the text plugin whose description is `value`.
    pub fn build_string(self, value: String) -> (r: Result<Summary, Error>)
        ensures
            r matches Ok(s) && is_text_summary(s, self.tag@, value@),
    {
        let bytes = value.as_str().as_bytes_vec();
        let mut dims: Vec<Dim> = Vec::new();
        dims.push(Dim { size: 1, name: empty_string() });
        let mut string_val: Vec<Vec<u8>> = Vec::new();
        string_val.push(bytes);
        let tensor = TensorProto {
            dtype: DT_STRING,
            tensor_shape: TensorShapeProto { dim: dims, unknown_rank: false },
            version_number: 0,
            tensor_content: Vec::new(),
            float_val: Vec::new(),
            double_val: Vec::new(),
            int_val: Vec::new(),
            string_val,
            int64_val: Vec::new(),
            bool_val: Vec::new(),
        };
        proof {
            reveal_strlit("text");
        }
        let metadata = SummaryMetadata {
            plugin_data: Some(PluginData { plugin_name: String::from_str("text"), content: Vec::new() }),
            display_name: empty_string(),
            summary_description: value,
            data_class: 0,
        };
        let v = Value {
            node_name: empty_string(),
            tag: self.tag,
            metadata: Some(metadata),
            value: Some(ValueKind::Tensor(tensor)),
        };
        let mut values: Vec<Value> = Vec::new();
        values.push(v);
        assert(values@[0].metadata matches Some(m) && m.plugin_data matches Some(p)
            && p.plugin_name@ == text_plugin_name());
        assert(values@[0].value matches Some(ValueKind::Tensor(t)) && t.string_val@[0]@
            == encode_utf8_of(value@));
        assert(values@[0].value matches Some(ValueKind::Tensor(t))
            && t.tensor_shape.dim@[0].name@ == Seq::<char>::empty());
        Ok(Summary { value: values })
    }

    /// A histogram summary.
    pub fn build_histogram(self, histogram: HistogramProto) -> (r: Result<Summary, Error>)
        ensures
            r matches Ok(s) && single_value_summary(s, self.tag@, ValueKind::Histo(histogram)),
    {
        Ok(self.single(ValueKind::Histo(histogram)))
    }

    /// A tensor summary.
    pub fn build_tensor(self, tensor: TensorProto) -> (r: Result<Summary, Error>)
        ensures
            r matches Ok(s) && single_value_summary(s, self.tag@, ValueKind::Tensor(tensor)),
    {
        Ok(self.single(ValueKind::Tensor(tensor)))
    }

    /// An image summary.
    pub fn build_image(self, image: Image) -> (r: Result<Summary, Error>)
        ensures
            r matches Ok(s) && single_value_summary(s, self.tag@, ValueKind::Image(image)),
    {
        Ok(self.single(ValueKind::Image(image)))
    }

    /// A summary with one value per image, in order: tagged `{tag}/image`
    /// when there is one image, `{tag}/image/{index}` otherwise.
    pub fn build_image_list(self, images: Vec<Image>) -> (r: Result<Summary, Error>)
        ensures
            r matches Ok(s) && is_image_list_summary(s, self.tag@, images@),
    {
        let n = images.len();
        let ghost all = images@;
        let mut rest = images;
        let mut values: Vec<Value> = Vec::new();
        let mut i: usize = 0;
        while i < n
            invariant
                i <= n,
                n == all.len(),
                rest@ == all.subrange(i as int, n as int),
                values@.len() == i,
                forall|j: int|
                    0 <= j < i ==> #[trigger] value_is(
                        values@[j],
                        image_tag(self.tag@, n as nat, j as nat),
                        ValueKind::Image(all[j]),
                    ),
            decreases n - i,
        {
            let image = rest.remove(0);
            let mut tag = self.tag.clone();
            proof {
                reveal_strlit("/image");
                reveal_strlit("/");
            }
            tag.append("/image");
            if n != 1 {
                tag.append("/");
                push_decimal(&mut tag, i as u128);
            }
            assert(tag@ =~= image_tag(self.tag@, n as nat, i as nat));
            values.push(
                Value {
                    node_name: empty_string(),
                    tag,
                    metadata: None,
                    value: Some(ValueKind::Image(image)),
                },
            );
            assert(rest@ =~= all.subrange(i + 1, n as int));
            i = i + 1;
        }
        Ok(Summary { value: values })
    }

    /// An audio summary.
    pub fn build_audio(self, audio: Audio) -> (r: Result<Summary, Error>)
        ensures
            r matches Ok(s) && single_value_summary(s, self.tag@, ValueKind::Audio(audio)),
    {
        Ok(self.single(ValueKind::Audio(audio)))
    }
}

} // verus!
