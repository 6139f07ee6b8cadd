use greet_calc::codec::{read_u32_le, read_u64_le, write_u32_le, write_u64_le};

#[test]
fn read_u32_exact_value() {
    let bytes = [0x78u8, 0x56, 0x34, 0x12];
    assert_eq!(read_u32_le(&bytes, 0), 0x1234_5678);
}

#[test]
fn read_u64_exact_value() {
    let bytes = [0x08u8, 0x07, 0x06, 0x05, 0x04, 0x03, 0x02, 0x01];
    assert_eq!(read_u64_le(&bytes, 0), 0x0102_0304_0506_0708);
}

#[test]
fn read_at_offset() {
    let bytes = [0xaau8, 0xbb, 0x01, 0x00, 0x00, 0x00, 0x00, 0x00, 0x00, 0x02];
    assert_eq!(read_u64_le(&bytes, 2), 0x0200_0000_0000_0001);
}

#[test]
fn write_then_read_u32() {
    let mut buf = vec![0u8; 4];
    write_u32_le(&mut buf, 0, 0xdead_beef);
    assert_eq!(buf, vec![0xef, 0xbe, 0xad, 0xde]);
    assert_eq!(read_u32_le(&buf, 0), 0xdead_beef);
}

#[test]
fn write_then_read_u64() {
    let mut buf = vec![0u8; 8];
    write_u64_le(&mut buf, 0, u64::MAX);
    assert_eq!(buf, vec![0xff; 8]);
    assert_eq!(read_u64_le(&buf, 0), u64::MAX);
}

#[test]
fn write_touches_only_its_window() {
    let mut buf = vec![0x11u8; 12];
    write_u64_le(&mut buf, 2, 0);
    assert_eq!(buf, vec![0x11, 0x11, 0, 0, 0, 0, 0, 0, 0, 0, 0x11, 0x11]);
}

#[test]
fn layout_matches_borsh_u32() {
    let mut buf = vec![0u8; 4];
    write_u32_le(&mut buf, 0, 1_234_567);
    assert_eq!(buf, borsh::to_vec(&1_234_567u32).unwrap());
    let back: u32 = borsh::from_slice(&buf).unwrap();
    assert_eq!(back, 1_234_567);
}

#[test]
fn layout_matches_borsh_u64() {
    let mut buf = vec![0u8; 8];
    write_u64_le(&mut buf, 0, 987_654_321_012_345u64);
    assert_eq!(buf, borsh::to_vec(&987_654_321_012_345u64).unwrap());
    let back: u64 = borsh::from_slice(&buf).unwrap();
    assert_eq!(back, 987_654_321_012_345);
}
