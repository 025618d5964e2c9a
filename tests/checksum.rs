use tfrecord::crc::{crc32c, masked_crc32c};

#[test]
fn crc32c_check_value() {
    assert_eq!(crc32c(b"123456789"), 0xE306_9283);
}

#[test]
fn crc32c_of_empty_input() {
    assert_eq!(crc32c(b""), 0);
    assert_eq!(masked_crc32c(b""), 0xA282_EAD8);
}

#[test]
fn masked_crc32c_check_value() {
    assert_eq!(masked_crc32c(b"123456789"), 0xC78A_B0E5);
}

#[test]
fn masked_crc32c_is_deterministic() {
    let data = b"some bytes to check".to_vec();
    assert_eq!(masked_crc32c(&data), masked_crc32c(&data.clone()));
}

#[test]
fn masked_crc32c_changes_under_each_single_bit_flip() {
    let data = b"tfevents".to_vec();
    let base = masked_crc32c(&data);
    for k in 0..data.len() {
        for bit in 0..8 {
            let mut flipped = data.clone();
            flipped[k] ^= 1u8 << bit;
            assert_ne!(masked_crc32c(&flipped), base);
        }
    }
}
