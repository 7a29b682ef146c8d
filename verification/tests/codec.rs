use stlink::link::util::{buf_read_u16, buf_read_u32, buf_write_u16, buf_write_u32};

#[test]
fn u32_round_trip_little_endian() {
    let mut buf = [0u8; 8];
    buf_write_u32(&mut buf, 2, 0x1234_5678, true);
    assert_eq!(buf, [0, 0, 0x78, 0x56, 0x34, 0x12, 0, 0]);
    assert_eq!(buf_read_u32(&buf, 2, true), 0x1234_5678);
}

#[test]
fn u32_round_trip_big_endian() {
    let mut buf = [0u8; 8];
    buf_write_u32(&mut buf, 1, 0x1234_5678, false);
    assert_eq!(buf, [0, 0x12, 0x34, 0x56, 0x78, 0, 0, 0]);
    assert_eq!(buf_read_u32(&buf, 1, false), 0x1234_5678);
}

#[test]
fn u16_round_trip_both_orders() {
    let mut buf = [0xFFu8; 4];
    buf_write_u16(&mut buf, 1, 0xBEEF, true);
    assert_eq!(buf, [0xFF, 0xEF, 0xBE, 0xFF]);
    assert_eq!(buf_read_u16(&buf, 1, true), 0xBEEF);
    buf_write_u16(&mut buf, 2, 0xBEEF, false);
    assert_eq!(buf, [0xFF, 0xEF, 0xBE, 0xEF]);
    assert_eq!(buf_read_u16(&buf, 2, false), 0xBEEF);
}
