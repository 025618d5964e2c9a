//! Writing framed, checksummed event records in the TensorBoard event-file
//! format: a masked CRC32C checksum, record framing, the event messages and
//! their encoding, summary builders for each kind of value, and an event
//! writer that owns a byte sink.
use vstd::prelude::*;

pub mod crc;
pub mod decimal;
pub mod error;
pub mod event;
pub mod paths;
pub mod proto;
pub mod record;
pub mod wire;
pub mod writer;

pub use error::Error;
pub use event::{EventInit, SummaryInit};
pub use proto::{
    Audio, Dim, Event, HistogramProto, Image, PluginData, Summary, SummaryMetadata, TensorProto,
    TensorShapeProto, Value, ValueKind,
};
pub use writer::{ByteSink, EventWriter, EventWriterInit};

verus! {

} // verus!
