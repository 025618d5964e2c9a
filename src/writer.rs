//! The event writer: builds a summary, wraps it in an event, encodes the
//! event, frames it and hands the frame to a byte sink.
use vstd::prelude::*;

use crate::crc::masked_crc32c;
use crate::error::Error;
use crate::event::{
    chosen_wall_time, is_image_list_summary, is_text_summary, single_value_summary, EventInit,
    SummaryInit,
};
use crate::proto::{
    encode_event, event_bytes, Audio, Event, HistogramProto, Image, Summary, TensorProto, ValueKind,
};
use crate::record::{
    encode_frame, frames_of, lemma_appended_frames, lemma_read_frames_round_trip, push_le_u32,
    push_le_u64, read_frames, spec_frame,
};

verus! {

/// A destination for bytes, such as a file or a buffer.
pub trait ByteSink {
    /// Whether the sink takes every write and every flush without failing.
    spec fn accepts_all(&self) -> bool;

    /// Hands all of `buf` to the sink.
    fn write_all(&mut self, buf: &[u8]) -> (r: Result<(), Error>)
        ensures
            old(self).accepts_all() ==> r is Ok && final(self).accepts_all(),
    ;

    /// Hands what the sink buffers on to the system.
    fn flush(&mut self) -> (r: Result<(), Error>)
        ensures
            old(self).accepts_all() ==> r is Ok && final(self).accepts_all(),
    ;
}

/// An in-memory sink: each write appends to the vector, and nothing fails.
impl ByteSink for Vec<u8> {
    open spec fn accepts_all(&self) -> bool {
        true
    }

    fn write_all(&mut self, buf: &[u8]) -> (r: Result<(), Error>) {
        crate::record::append_bytes(self, buf);
        Ok(())
    }

    fn flush(&mut self) -> (r: Result<(), Error>) {
        Ok(())
    }
}

/// The frame that carries the encoded `event`.
pub fn encode_event_record(event: &Event) -> (r: Vec<u8>)
    ensures
        r@ == spec_frame(event_bytes(*event)),
{
    let payload = encode_event(event);
    encode_frame(payload.as_slice())
}

/// How event writers are configured.
#[derive(Debug, Clone, Copy, PartialEq, Eq)]
pub struct EventWriterInit {
    /// If set, the writer flushes its sink after each event.
    pub auto_flush: bool,
}

impl Default for EventWriterInit {
    fn default() -> (r: Self)
        ensures
            r.auto_flush,
    {
        EventWriterInit { auto_flush: true }
    }
}

/// Writes events, one frame each, to the sink it owns.
pub struct EventWriter<W> {
    auto_flush: bool,
    events_writer: W,
    /// The bytes handed to the sink by writes that succeeded, in order.
    handed: Ghost<Seq<u8>>,
    /// How many writes the writer has made on the sink.
    write_calls: Ghost<nat>,
    /// How many flushes the writer has made on the sink.
    flush_calls: Ghost<nat>,
    /// What the last call on the sink returned.
    last: Ghost<Option<Result<(), Error>>>,
}

impl EventWriterInit {
    /// A writer that owns `writer`.
    pub fn from_writer<W: ByteSink>(self, writer: W) -> (r: Result<EventWriter<W>, Error>)
        ensures
            r matches Ok(w) && w.sink() == writer && w.auto_flush_enabled() == self.auto_flush
                && w.written() == Seq::<u8>::empty() && w.write_count() == 0 && w.flush_count() == 0
                && w.last_outcome() is None,
    {
        let EventWriterInit { auto_flush } = self;
        Ok(
            EventWriter {
                auto_flush,
                events_writer: writer,
                handed: Ghost(Seq::empty()),
                write_calls: Ghost(0),
                flush_calls: Ghost(0),
                last: Ghost(None),
            },
        )
    }

    /// A writer that owns `writer`, a sink that is written to asynchronously.
    pub fn from_async_writer<W>(self, writer: W) -> (r: Result<EventWriter<W>, Error>)
        ensures
            r matches Ok(w) && w.sink() == writer && w.auto_flush_enabled() == self.auto_flush
                && w.written() == Seq::<u8>::empty() && w.write_count() == 0 && w.flush_count() == 0
                && w.last_outcome() is None,
    {
        let EventWriterInit { auto_flush } = self;
        Ok(
            EventWriter {
                auto_flush,
                events_writer: writer,
                handed: Ghost(Seq::empty()),
                write_calls: Ghost(0),
                flush_calls: Ghost(0),
                last: Ghost(None),
            },
        )
    }
}

/// The sink's contents grew by exactly the frame of `e`.
pub open spec fn appended_event(before: Seq<u8>, after: Seq<u8>, e: Event) -> bool {
    after == before + spec_frame(event_bytes(e))
}

/// `e` has the wall time and step that `init` gives when built at `now`.
pub open spec fn event_stamped(e: Event, init: EventInit, now: u64) -> bool {
    e.wall_time == chosen_wall_time(init, now) && e.step == init.step
}

/// Successive writes, each of which appended the frame of its event, leave
/// the frames of all the events in call order, and a reader takes back the
/// encoded events one frame each.
pub proof fn lemma_writes_yield_frames(states: Seq<Seq<u8>>, events: Seq<Event>)
    requires
        states.len() == events.len() + 1,
        forall|i: int|
            0 <= i < events.len() ==> #[trigger] appended_event(states[i], states[i + 1], events[i]),
        forall|i: int| 0 <= i < events.len() ==> #[trigger] event_bytes(events[i]).len() <= u64::MAX,
    ensures
        states.last() == states[0] + frames_of(events.map_values(|e: Event| event_bytes(e))),
        read_frames(frames_of(events.map_values(|e: Event| event_bytes(e)))) == Some(
            events.map_values(|e: Event| event_bytes(e)),
        ),
{
    let payloads = events.map_values(|e: Event| event_bytes(e));
    assert forall|i: int| 0 <= i < payloads.len() implies #[trigger] payloads[i].len()
        <= u64::MAX by {
        assert(event_bytes(events[i]).len() <= u64::MAX);
    }
    assert forall|i: int| 0 <= i < payloads.len() implies #[trigger] states[i + 1] == states[i]
        + spec_frame(payloads[i]) by {
        assert(appended_event(states[i], states[i + 1], events[i]));
    }
    lemma_appended_frames(states, payloads);
    lemma_read_frames_round_trip(payloads);
}

/// Where the first `j` of the four writes of a frame end, for a payload of
/// `n` bytes: after the length, its checksum, the payload, and the payload's
/// checksum.
pub open spec fn part_end(n: nat, j: int) -> int {
    if j <= 0 {
        0
    } else if j == 1 {
        8
    } else if j == 2 {
        12
    } else if j == 3 {
        12 + n as int
    } else {
        16 + n as int
    }
}

/// The first `j` writes of the frame of `payload` went through, handing
/// over its first `part_end(j)` bytes, and `calls` writes were made: those
/// `j`, and when `j < 4` the one that failed, after which none.
pub open spec fn frame_attempt_step(
    before: Seq<u8>,
    after: Seq<u8>,
    calls: int,
    payload: Seq<u8>,
    j: int,
) -> bool {
    &&& 0 <= j <= 4
    &&& after == before + spec_frame(payload).take(part_end(payload.len(), j))
    &&& calls == if j == 4 {
        4
    } else {
        j + 1
    }
}

/// An attempt to write the frame of `payload` that stopped at the first
/// failing write.
pub open spec fn frame_attempt(before: Seq<u8>, after: Seq<u8>, calls: int, payload: Seq<u8>) -> bool {
    exists|j: int| #[trigger] frame_attempt_step(before, after, calls, payload, j)
}

/// What writing `e` did, going from `before` to `after` with result `r`:
/// the frame of `e` was written up to the first failing write; the sink
/// was flushed once exactly when the writer auto-flushes and the whole frame
/// went through; the result is what the last sink call returned; and a sink
/// that takes everything gives success.
pub open spec fn wrote_event<W: ByteSink>(
    before: EventWriter<W>,
    after: EventWriter<W>,
    e: Event,
    r: Result<(), Error>,
) -> bool {
    let complete = after.written() == before.written() + spec_frame(event_bytes(e));
    &&& after.auto_flush_enabled() == before.auto_flush_enabled()
    &&& frame_attempt(
        before.written(),
        after.written(),
        after.write_count() - before.write_count(),
        event_bytes(e),
    )
    &&& after.flush_count() == before.flush_count() + if before.auto_flush_enabled() && complete {
        1int
    } else {
        0int
    }
    &&& after.last_outcome() == Some(r)
    &&& (r is Ok ==> complete)
    &&& (before.sink().accepts_all() ==> r is Ok && after.sink().accepts_all())
}

/// The event that a typed write builds: stamped by `init` at `now`, and
/// carrying `summary`.
pub open spec fn stamped_event(init: EventInit, now: u64, summary: Summary) -> Event {
    Event { wall_time: chosen_wall_time(init, now), step: init.step, summary: Some(summary) }
}

impl<W> EventWriter<W> {
    /// The sink that the writer owns.
    pub closed spec fn sink(&self) -> W {
        self.events_writer
    }

    /// The bytes that the writer has handed to its sink through writes that
    /// succeeded, in order.
    pub closed spec fn written(&self) -> Seq<u8> {
        self.handed@
    }

    /// How many writes the writer has made on its sink.
    pub closed spec fn write_count(&self) -> nat {
        self.write_calls@
    }

    /// How many flushes the writer has made on its sink.
    pub closed spec fn flush_count(&self) -> nat {
        self.flush_calls@
    }

    /// What the writer's last call on its sink returned, if it made one.
    pub closed spec fn last_outcome(&self) -> Option<Result<(), Error>> {
        self.last@
    }

    /// Whether the writer flushes after each event.
    pub closed spec fn auto_flush_enabled(&self) -> bool {
        self.auto_flush
    }

    /// Whether the writer flushes after each event.
    pub fn auto_flush(&self) -> (r: bool)
        ensures
            r == self.auto_flush_enabled(),
    {
        self.auto_flush
    }

    /// The sink, for reading.
    pub fn get_ref(&self) -> (r: &W)
        ensures
            *r == self.sink(),
    {
        &self.events_writer
    }

    /// The sink, for writing to it directly.
    pub fn get_mut(&mut self) -> (r: &mut W)
        ensures
            *r == old(self).sink(),
            final(self).sink() == *final(r),
            final(self).auto_flush_enabled() == old(self).auto_flush_enabled(),
            final(self).written() == old(self).written(),
            final(self).write_count() == old(self).write_count(),
            final(self).flush_count() == old(self).flush_count(),
            final(self).last_outcome() == old(self).last_outcome(),
    {
        &mut self.events_writer
    }

    /// Gives up the writer and returns its sink.
    pub fn into_inner(self) -> (r: W)
        ensures
            r == self.sink(),
    {
        self.events_writer
    }
}

impl<W: ByteSink> EventWriter<W> {
    /// Hands `buf` to the sink, and records the call and, when the sink
    /// takes it, the bytes.
    fn send(&mut self, buf: &[u8]) -> (r: Result<(), Error>)
        ensures
            final(self).auto_flush_enabled() == old(self).auto_flush_enabled(),
            final(self).written() == if r is Ok {
                old(self).written() + buf@
            } else {
                old(self).written()
            },
            final(self).write_count() == old(self).write_count() + 1,
            final(self).flush_count() == old(self).flush_count(),
            final(self).last_outcome() == Some(r),
            old(self).sink().accepts_all() ==> r is Ok && final(self).sink().accepts_all(),
    {
        let r = self.events_writer.write_all(buf);
        if r.is_ok() {
            self.handed = Ghost(self.handed@ + buf@);
        }
        self.write_calls = Ghost(self.write_calls@ + 1);
        self.last = Ghost(Some(r));
        r
    }

    /// Flushes the sink, and records the call.
    fn send_flush(&mut self) -> (r: Result<(), Error>)
        ensures
            final(self).auto_flush_enabled() == old(self).auto_flush_enabled(),
            final(self).written() == old(self).written(),
            final(self).write_count() == old(self).write_count(),
            final(self).flush_count() == old(self).flush_count() + 1,
            final(self).last_outcome() == Some(r),
            old(self).sink().accepts_all() ==> r is Ok && final(self).sink().accepts_all(),
    {
        let r = self.events_writer.flush();
        self.flush_calls = Ghost(self.flush_calls@ + 1);
        self.last = Ghost(Some(r));
        r
    }

    /// Writes the frame that carries `payload`: the length, its checksum, the
    /// payload and its checksum, in four writes, stopping at the first failure
    /// and returning it.
    pub fn write_record(&mut self, payload: &[u8]) -> (r: Result<(), Error>)
        ensures
            final(self).auto_flush_enabled() == old(self).auto_flush_enabled(),
            frame_attempt(
                old(self).written(),
                final(self).written(),
                final(self).write_count() - old(self).write_count(),
                payload@,
            ),
            r is Ok <==> final(self).written() == old(self).written() + spec_frame(payload@),
            final(self).flush_count() == old(self).flush_count(),
            final(self).last_outcome() == Some(r),
            old(self).sink().accepts_all() ==> r is Ok && final(self).sink().accepts_all(),
    {
        let ghost w0 = self.written();
        let ghost c0 = self.write_count();
        let ghost f = spec_frame(payload@);
        let ghost n = payload@.len();
        let mut len_bytes: Vec<u8> = Vec::new();
        push_le_u64(&mut len_bytes, payload.len() as u64);
        let mut len_crc: Vec<u8> = Vec::new();
        push_le_u32(&mut len_crc, masked_crc32c(len_bytes.as_slice()));
        let mut payload_crc: Vec<u8> = Vec::new();
        push_le_u32(&mut payload_crc, masked_crc32c(payload));
        proof {
            assert(len_bytes@ =~= crate::record::le_u64_bytes(payload@.len() as u64));
            assert(f.take(0) =~= Seq::<u8>::empty());
            assert(f.take(8) =~= len_bytes@);
            assert(f.take(12) =~= len_bytes@ + len_crc@);
            assert(f.take(12 + n as int) =~= len_bytes@ + len_crc@ + payload@);
            assert(f.take(16 + n as int) =~= f);
            assert(f =~= len_bytes@ + len_crc@ + payload@ + payload_crc@);
            assert(w0 + Seq::<u8>::empty() =~= w0);
        }
        let r1 = self.send(len_bytes.as_slice());
        if r1.is_err() {
            assert(frame_attempt_step(w0, self.written(), self.write_count() - c0, payload@, 0));
            assert(self.written().len() < (w0 + f).len());
            return r1;
        }
        let r2 = self.send(len_crc.as_slice());
        if r2.is_err() {
            assert(frame_attempt_step(w0, self.written(), self.write_count() - c0, payload@, 1));
            assert(self.written().len() < (w0 + f).len());
            return r2;
        }
        proof {
            assert(w0 + len_bytes@ + len_crc@ =~= w0 + (len_bytes@ + len_crc@));
        }
        let r3 = self.send(payload);
        if r3.is_err() {
            assert(frame_attempt_step(w0, self.written(), self.write_count() - c0, payload@, 2));
            assert(self.written().len() < (w0 + f).len());
            return r3;
        }
        proof {
            assert(w0 + len_bytes@ + len_crc@ + payload@ =~= w0 + (len_bytes@ + len_crc@
                + payload@));
        }
        let r4 = self.send(payload_crc.as_slice());
        if r4.is_err() {
            assert(frame_attempt_step(w0, self.written(), self.write_count() - c0, payload@, 3));
            assert(self.written().len() < (w0 + f).len());
            return r4;
        }
        assert(self.written() =~= w0 + f);
        assert(frame_attempt_step(w0, self.written(), self.write_count() - c0, payload@, 4));
        r4
    }

    /// Writes `event` as one frame, then flushes if the writer auto-flushes
    /// and the frame went through.
    pub fn write_event(&mut self, event: Event) -> (r: Result<(), Error>)
        ensures
            wrote_event(*old(self), *final(self), event, r),
    {
        let payload = encode_event(&event);
        let r = self.write_record(payload.as_slice());
        if r.is_err() {
            return r;
        }
        if self.auto_flush {
            self.send_flush()
        } else {
            r
        }
    }

    /// Writes the event that `event_init` and `now` stamp, carrying `summary`.
    fn write_summary(&mut self, event_init: EventInit, summary: Summary, now: u64) -> (r: Result<
        (),
        Error,
    >)
        ensures
            wrote_event(*old(self), *final(self), stamped_event(event_init, now, summary), r),
    {
        let ghost expected = stamped_event(event_init, now, summary);
        let event = event_init.build_with_summary(summary, now);
        assert(event == expected);
        self.write_event(event)
    }

    /// Writes one event carrying a scalar; `value` is the bit pattern of a float, under `tag`. `now` is the wall time
    /// used when `event_init` gives none.
    pub fn write_scalar(&mut self, tag: String, event_init: EventInit, value: u32, now: u64) -> (r: Result<
        (),
        Error,
    >)
        ensures
            exists|s: Summary|
                #[trigger] single_value_summary(s, tag@, ValueKind::SimpleValue(value)) && wrote_event(
                    *old(self),
                    *final(self),
                    stamped_event(event_init, now, s),
                    r,
                ),
    {
        let ghost t = tag@;
        let summary = match SummaryInit::new(tag).build_scalar(value) {
            Ok(s) => s,
            Err(e) => return Err(e),
        };
        let ghost s = summary;
        let r = self.write_summary(event_init, summary, now);
        assert(single_value_summary(s, t, ValueKind::SimpleValue(value)));
        r
    }

    /// Writes one event carrying a text value, as a string tensor with text-plugin metadata, under `tag`. `now` is the wall time
    /// used when `event_init` gives none.
    pub fn write_text(&mut self, tag: String, event_init: EventInit, value: String, now: u64) -> (r: Result<
        (),
        Error,
    >)
        ensures
            exists|s: Summary|
                #[trigger] is_text_summary(s, tag@, value@) && wrote_event(
                    *old(self),
                    *final(self),
                    stamped_event(event_init, now, s),
                    r,
                ),
    {
        let ghost t = tag@;
        let summary = match SummaryInit::new(tag).build_string(value) {
            Ok(s) => s,
            Err(e) => return Err(e),
        };
        let ghost s = summary;
        let r = self.write_summary(event_init, summary, now);
        assert(is_text_summary(s, t, value@));
        r
    }

    /// Writes one event carrying a histogram, under `tag`. `now` is the wall time
    /// used when `event_init` gives none.
    pub fn write_histogram(&mut self, tag: String, event_init: EventInit, histogram: HistogramProto, now: u64) -> (r: Result<
        (),
        Error,
    >)
        ensures
            exists|s: Summary|
                #[trigger] single_value_summary(s, tag@, ValueKind::Histo(histogram)) && wrote_event(
                    *old(self),
                    *final(self),
                    stamped_event(event_init, now, s),
                    r,
                ),
    {
        let ghost t = tag@;
        let summary = match SummaryInit::new(tag).build_histogram(histogram) {
            Ok(s) => s,
            Err(e) => return Err(e),
        };
        let ghost s = summary;
        let r = self.write_summary(event_init, summary, now);
        assert(single_value_summary(s, t, ValueKind::Histo(histogram)));
        r
    }

    /// Writes one event carrying a tensor, under `tag`. `now` is the wall time
    /// used when `event_init` gives none.
    pub fn write_tensor(&mut self, tag: String, event_init: EventInit, tensor: TensorProto, now: u64) -> (r: Result<
        (),
        Error,
    >)
        ensures
            exists|s: Summary|
                #[trigger] single_value_summary(s, tag@, ValueKind::Tensor(tensor)) && wrote_event(
                    *old(self),
                    *final(self),
                    stamped_event(event_init, now, s),
                    r,
                ),
    {
        let ghost t = tag@;
        let summary = match SummaryInit::new(tag).build_tensor(tensor) {
            Ok(s) => s,
            Err(e) => return Err(e),
        };
        let ghost s = summary;
        let r = self.write_summary(event_init, summary, now);
        assert(single_value_summary(s, t, ValueKind::Tensor(tensor)));
        r
    }

    /// Writes one event carrying an image, under `tag`. `now` is the wall time
    /// used when `event_init` gives none.
    pub fn write_image(&mut self, tag: String, event_init: EventInit, image: Image, now: u64) -> (r: Result<
        (),
        Error,
    >)
        ensures
            exists|s: Summary|
                #[trigger] single_value_summary(s, tag@, ValueKind::Image(image)) && wrote_event(
                    *old(self),
                    *final(self),
                    stamped_event(event_init, now, s),
                    r,
                ),
    {
        let ghost t = tag@;
        let summary = match SummaryInit::new(tag).build_image(image) {
            Ok(s) => s,
            Err(e) => return Err(e),
        };
        let ghost s = summary;
        let r = self.write_summary(event_init, summary, now);
        assert(single_value_summary(s, t, ValueKind::Image(image)));
        r
    }

    /// Writes one event carrying a list of images, one value each, under `tag`. `now` is the wall time
    /// used when `event_init` gives none.
    pub fn write_image_list(&mut self, tag: String, event_init: EventInit, images: Vec<Image>, now: u64) -> (r: Result<
        (),
        Error,
    >)
        ensures
            exists|s: Summary|
                #[trigger] is_image_list_summary(s, tag@, images@) && wrote_event(
                    *old(self),
                    *final(self),
                    stamped_event(event_init, now, s),
                    r,
                ),
    {
        let ghost t = tag@;
        let summary = match SummaryInit::new(tag).build_image_list(images) {
            Ok(s) => s,
            Err(e) => return Err(e),
        };
        let ghost s = summary;
        let r = self.write_summary(event_init, summary, now);
        assert(is_image_list_summary(s, t, images@));
        r
    }

    /// Writes one event carrying an audio clip, under `tag`. `now` is the wall time
    /// used when `event_init` gives none.
    pub fn write_audio(&mut self, tag: String, event_init: EventInit, audio: Audio, now: u64) -> (r: Result<
        (),
        Error,
    >)
        ensures
            exists|s: Summary|
                #[trigger] single_value_summary(s, tag@, ValueKind::Audio(audio)) && wrote_event(
                    *old(self),
                    *final(self),
                    stamped_event(event_init, now, s),
                    r,
                ),
    {
        let ghost t = tag@;
        let summary = match SummaryInit::new(tag).build_audio(audio) {
            Ok(s) => s,
            Err(e) => return Err(e),
        };
        let ghost s = summary;
        let r = self.write_summary(event_init, summary, now);
        assert(single_value_summary(s, t, ValueKind::Audio(audio)));
        r
    }

    /// Flushes the sink once, writing nothing, and returns what the sink's
    /// flush returned.
    pub fn flush(&mut self) -> (r: Result<(), Error>)
        ensures
            final(self).auto_flush_enabled() == old(self).auto_flush_enabled(),
            final(self).written() == old(self).written(),
            final(self).write_count() == old(self).write_count(),
            final(self).flush_count() == old(self).flush_count() + 1,
            final(self).last_outcome() == Some(r),
            old(self).sink().accepts_all() ==> r is Ok && final(self).sink().accepts_all(),
    {
        self.send_flush()
    }
}

} // verus!
