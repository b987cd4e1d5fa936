use gptneox::wire::{read_i32_le, write_i32_le};

#[test]
fn signed_values_round_trip() {
    for v in [0, 1, -1, 255, 256, -256, 0x1234_5678, i32::MAX, i32::MIN] {
        let mut out = vec![9u8];
        write_i32_le(&mut out, v);
        assert_eq!(&out[1..], &v.to_le_bytes());
        assert_eq!(read_i32_le(&out, 1), v);
    }
}

#[test]
fn reads_little_endian() {
    assert_eq!(read_i32_le(&[0x78, 0x56, 0x34, 0x12], 0), 0x1234_5678);
    assert_eq!(read_i32_le(&[0xff, 0xff, 0xff, 0xff], 0), -1);
    assert_eq!(read_i32_le(&[0, 0, 0, 0x80], 0), i32::MIN);
}
