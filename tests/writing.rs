use tfrecord::crc::masked_crc32c;
use tfrecord::proto::encode_event;
use tfrecord::writer::encode_event_record;
use tfrecord::{
    Audio, ByteSink, Error, EventInit, EventWriterInit, HistogramProto, Image, SummaryInit,
    TensorProto, TensorShapeProto,
};

fn split_frames(mut b: &[u8]) -> Vec<Vec<u8>> {
    let mut out = Vec::new();
    while !b.is_empty() {
        let mut l = [0u8; 8];
        l.copy_from_slice(&b[0..8]);
        let len = u64::from_le_bytes(l) as usize;
        let mut c = [0u8; 4];
        c.copy_from_slice(&b[8..12]);
        assert_eq!(u32::from_le_bytes(c), masked_crc32c(&b[0..8]));
        let payload = &b[12..12 + len];
        c.copy_from_slice(&b[12 + len..16 + len]);
        assert_eq!(u32::from_le_bytes(c), masked_crc32c(payload));
        out.push(payload.to_vec());
        b = &b[16 + len..];
    }
    out
}

#[test]
fn scalar_event_encodes_exactly() {
    let summary = SummaryInit::new("loss".to_string()).build_scalar(0.25f32.to_bits()).unwrap();
    let event = EventInit::new(5, 1.5f64.to_bits()).build_with_summary(summary, 0);
    let expected: Vec<u8> = vec![
        9, 0, 0, 0, 0, 0, 0, 248, 63, 16, 5, 42, 13, 10, 11, 10, 4, 108, 111, 115, 115, 21, 0, 0,
        128, 62,
    ];
    assert_eq!(encode_event(&event), expected);
}

#[test]
fn scalar_write_frames_the_event() {
    let mut w = EventWriterInit::default().from_writer(Vec::new()).unwrap();
    w.write_scalar("loss".to_string(), EventInit::new(5, 1.5f64.to_bits()), 0.25f32.to_bits(), 0)
        .unwrap();
    let summary = SummaryInit::new("loss".to_string()).build_scalar(0.25f32.to_bits()).unwrap();
    let event = EventInit::new(5, 1.5f64.to_bits()).build_with_summary(summary, 0);
    assert_eq!(w.into_inner(), encode_event_record(&event));
}

#[test]
fn n_writes_give_n_frames_in_order() {
    let mut w = EventWriterInit { auto_flush: false }.from_writer(Vec::new()).unwrap();
    for step in 0..5i64 {
        w.write_scalar(format!("s{}", step), EventInit::new(step, 2.0f64.to_bits()), 1, 0).unwrap();
    }
    let frames = split_frames(w.get_ref());
    assert_eq!(frames.len(), 5);
    for (step, f) in frames.iter().enumerate() {
        let summary = SummaryInit::new(format!("s{}", step)).build_scalar(1).unwrap();
        let event = EventInit::new(step as i64, 2.0f64.to_bits()).build_with_summary(summary, 0);
        assert_eq!(f, &encode_event(&event));
    }
}

#[test]
fn every_kind_of_write_lands_one_frame() {
    let mut w = EventWriterInit::default().from_writer(Vec::new()).unwrap();
    let init = EventInit::with_step(1);
    let now = 10.0f64.to_bits();
    w.write_text("t".to_string(), init, "hello".to_string(), now).unwrap();
    let histogram = HistogramProto {
        min: 0,
        max: 1.0f64.to_bits(),
        num: 2.0f64.to_bits(),
        sum: 1.0f64.to_bits(),
        sum_squares: 1.0f64.to_bits(),
        bucket_limit: vec![0.5f64.to_bits(), 1.0f64.to_bits()],
        bucket: vec![1.0f64.to_bits(), 1.0f64.to_bits()],
    };
    w.write_histogram("h".to_string(), init, histogram, now).unwrap();
    let tensor = TensorProto {
        dtype: 1,
        tensor_shape: TensorShapeProto { dim: Vec::new(), unknown_rank: false },
        version_number: 0,
        tensor_content: vec![0, 0, 128, 63],
        float_val: Vec::new(),
        double_val: Vec::new(),
        int_val: Vec::new(),
        string_val: Vec::new(),
        int64_val: Vec::new(),
        bool_val: Vec::new(),
    };
    w.write_tensor("x".to_string(), init, tensor, now).unwrap();
    let img = Image { height: 1, width: 1, colorspace: 1, encoded_image_string: vec![9] };
    w.write_image("i".to_string(), init, img, now).unwrap();
    let imgs = vec![
        Image { height: 1, width: 1, colorspace: 1, encoded_image_string: vec![1] },
        Image { height: 1, width: 1, colorspace: 1, encoded_image_string: vec![2] },
    ];
    w.write_image_list("l".to_string(), init, imgs, now).unwrap();
    let audio = Audio {
        sample_rate: 44100.0f32.to_bits(),
        num_channels: 1,
        length_frames: 3,
        encoded_audio_string: vec![1, 2, 3],
        content_type: "audio/wav".to_string(),
    };
    w.write_audio("a".to_string(), init, audio, now).unwrap();
    w.write_event(EventInit::new(2, 0).build_empty(0)).unwrap();
    w.flush().unwrap();
    let frames = split_frames(w.get_ref());
    assert_eq!(frames.len(), 7);
    // the empty event at step 2 with a zero wall time encodes as the step alone
    assert_eq!(frames[6], vec![16, 2]);
}

#[test]
fn text_event_carries_the_bytes() {
    let summary = SummaryInit::new("note".to_string()).build_string("hi".to_string()).unwrap();
    let event = EventInit::new(0, 0).build_with_summary(summary, 0);
    let bytes = encode_event(&event);
    let hay = bytes.windows(4).any(|w| w == [0x42, 0x02, b'h', b'i']);
    assert!(hay, "string_val field 8 holding \"hi\" is present");
    assert!(bytes.windows(6).any(|w| w == [0x0a, 0x04, b't', b'e', b'x', b't']));
}

#[test]
fn auto_flush_defaults_on() {
    let w = EventWriterInit::default().from_writer(Vec::new()).unwrap();
    assert!(w.auto_flush());
    let w = EventWriterInit { auto_flush: false }.from_async_writer(Vec::<u8>::new()).unwrap();
    assert!(!w.auto_flush());
}

struct FailingSink {
    writes: usize,
    flushes: usize,
}

impl ByteSink for FailingSink {
    fn accepts_all(&self) -> bool {
        false
    }

    fn write_all(&mut self, _buf: &[u8]) -> Result<(), Error> {
        self.writes += 1;
        Err(Error::IoError { desc: "disk full".to_string() })
    }

    fn flush(&mut self) -> Result<(), Error> {
        self.flushes += 1;
        Ok(())
    }
}

#[test]
fn sink_failure_is_reported() {
    let mut w = EventWriterInit::default().from_writer(FailingSink { writes: 0, flushes: 0 }).unwrap();
    let r = w.write_scalar("x".to_string(), EventInit::with_step(0), 0, 0);
    assert_eq!(r, Err(Error::IoError { desc: "disk full".to_string() }));
    assert!(w.get_ref().writes == 1 && w.get_ref().flushes == 0);
}

/// Takes a fixed number of writes, then fails; counts the calls.
struct LimitedSink {
    accepted: Vec<u8>,
    room: usize,
    writes: usize,
    flushes: usize,
    fail_flush: bool,
}

impl LimitedSink {
    fn new(room: usize, fail_flush: bool) -> Self {
        LimitedSink { accepted: Vec::new(), room, writes: 0, flushes: 0, fail_flush }
    }
}

impl ByteSink for LimitedSink {
    fn accepts_all(&self) -> bool {
        false
    }

    fn write_all(&mut self, buf: &[u8]) -> Result<(), Error> {
        self.writes += 1;
        if self.room == 0 {
            return Err(Error::IoError { desc: "full".to_string() });
        }
        self.room -= 1;
        self.accepted.extend_from_slice(buf);
        Ok(())
    }

    fn flush(&mut self) -> Result<(), Error> {
        self.flushes += 1;
        if self.fail_flush {
            Err(Error::IoError { desc: "flush failed".to_string() })
        } else {
            Ok(())
        }
    }
}

#[test]
fn failed_write_stops_the_frame() {
    let mut w = EventWriterInit::default().from_writer(LimitedSink::new(2, false)).unwrap();
    let r = w.write_event(EventInit::new(1, 0).build_empty(0));
    assert_eq!(r, Err(Error::IoError { desc: "full".to_string() }));
    let sink = w.into_inner();
    assert_eq!(sink.writes, 3);
    assert_eq!(sink.flushes, 0);
    assert_eq!(sink.accepted.len(), 12);
}

#[test]
fn failed_flush_keeps_the_frame() {
    let mut w = EventWriterInit::default().from_writer(LimitedSink::new(10, true)).unwrap();
    let event = EventInit::new(1, 0).build_empty(0);
    let expected = encode_event_record(&EventInit::new(1, 0).build_empty(0));
    let r = w.write_event(event);
    assert_eq!(r, Err(Error::IoError { desc: "flush failed".to_string() }));
    let sink = w.into_inner();
    assert_eq!(sink.accepted, expected);
    assert_eq!((sink.writes, sink.flushes), (4, 1));
}

#[test]
fn flushes_follow_auto_flush() {
    for auto_flush in [true, false] {
        let mut w = EventWriterInit { auto_flush }.from_writer(LimitedSink::new(100, false)).unwrap();
        w.write_scalar("a".to_string(), EventInit::with_step(1), 0, 0).unwrap();
        w.write_scalar("a".to_string(), EventInit::with_step(1), 0, 0).unwrap();
        assert_eq!(w.get_ref().flushes, if auto_flush { 2 } else { 0 });
        w.flush().unwrap();
        assert_eq!(w.get_ref().flushes, if auto_flush { 3 } else { 1 });
        assert_eq!(w.get_ref().writes, 8);
    }
}

#[test]
fn repeated_and_earlier_steps_are_written() {
    let mut w = EventWriterInit::default().from_writer(Vec::new()).unwrap();
    w.write_scalar("s".to_string(), EventInit::new(10, 1), 1, 0).unwrap();
    w.write_scalar("s".to_string(), EventInit::new(10, 1), 2, 0).unwrap();
    w.write_scalar("s".to_string(), EventInit::new(3, 1), 3, 0).unwrap();
    assert_eq!(split_frames(w.get_ref()).len(), 3);
}

#[test]
fn empty_image_list_still_takes_a_frame() {
    let mut w = EventWriterInit::default().from_writer(Vec::new()).unwrap();
    w.write_image_list("pics".to_string(), EventInit::new(0, 0), Vec::new(), 0).unwrap();
    let frames = split_frames(w.get_ref());
    assert_eq!(frames.len(), 1);
    // an event holding an empty summary: field 5, length 0
    assert_eq!(frames[0], vec![42, 0]);
}

#[test]
fn tensor_value_arrays_are_packed() {
    let tensor = TensorProto {
        dtype: 1,
        tensor_shape: TensorShapeProto { dim: Vec::new(), unknown_rank: false },
        version_number: 0,
        tensor_content: Vec::new(),
        float_val: vec![1.0f32.to_bits()],
        double_val: vec![2.0f64.to_bits()],
        int_val: vec![-1],
        string_val: Vec::new(),
        int64_val: vec![300],
        bool_val: vec![true, false],
    };
    let expected: Vec<u8> = vec![
        8, 1, // dtype
        18, 0, // empty shape
        42, 4, 0, 0, 128, 63, // float_val
        50, 8, 0, 0, 0, 0, 0, 0, 0, 64, // double_val
        58, 10, 255, 255, 255, 255, 255, 255, 255, 255, 255, 1, // int_val -1
        82, 2, 172, 2, // int64_val 300
        90, 2, 1, 0, // bool_val
    ];
    assert_eq!(tfrecord::proto::encode_tensor(&tensor), expected);
}
