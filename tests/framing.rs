use tfrecord::crc::masked_crc32c;
use tfrecord::record::encode_frame;
use tfrecord::wire::put_varint;

fn read_frame(f: &[u8]) -> Option<Vec<u8>> {
    if f.len() < 16 {
        return None;
    }
    let mut len_bytes = [0u8; 8];
    len_bytes.copy_from_slice(&f[0..8]);
    let len = u64::from_le_bytes(len_bytes) as usize;
    let mut c = [0u8; 4];
    c.copy_from_slice(&f[8..12]);
    if u32::from_le_bytes(c) != masked_crc32c(&f[0..8]) || f.len() != 16 + len {
        return None;
    }
    let payload = &f[12..12 + len];
    c.copy_from_slice(&f[12 + len..16 + len]);
    if u32::from_le_bytes(c) != masked_crc32c(payload) {
        return None;
    }
    Some(payload.to_vec())
}

#[test]
fn frame_of_hello_is_exact() {
    let expected: Vec<u8> = vec![
        5, 0, 0, 0, 0, 0, 0, 0, 234, 178, 4, 62, 104, 101, 108, 108, 111, 187, 31, 28, 25,
    ];
    assert_eq!(encode_frame(b"hello"), expected);
}

#[test]
fn frame_of_empty_payload_reads_back() {
    let f = encode_frame(b"");
    assert_eq!(f.len(), 16);
    assert_eq!(read_frame(&f), Some(Vec::new()));
}

#[test]
fn frame_round_trip_recovers_payload() {
    let payload: Vec<u8> = (0..=255u8).collect();
    let f = encode_frame(&payload);
    assert_eq!(f.len(), payload.len() + 16);
    assert_eq!(read_frame(&f), Some(payload));
}

#[test]
fn frame_rejects_every_single_byte_change() {
    let f = encode_frame(b"abc");
    for k in 0..f.len() {
        let mut g = f.clone();
        g[k] = g[k].wrapping_add(1);
        assert_eq!(read_frame(&g), None, "change at byte {}", k);
    }
}

#[test]
fn varint_encodings() {
    let mut out = Vec::new();
    put_varint(&mut out, 300);
    assert_eq!(out, vec![172, 2]);
    let mut out = Vec::new();
    put_varint(&mut out, u64::MAX);
    assert_eq!(out, vec![255, 255, 255, 255, 255, 255, 255, 255, 255, 1]);
}
