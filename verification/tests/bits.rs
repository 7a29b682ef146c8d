use stlink::common::{mask, version_to_raw, write_u32};
use stlink::link::link::flash::next_access;
use stlink::link::util::{append_u16, append_u32, buf_read_u32, buf_write_u32};
use stlink::util::{
    be_to_h_u16, be_to_h_u32, be_to_h_u64, buf_get_u32, buf_set_u32, le_to_h_u16, le_to_h_u32,
    le_to_h_u64, parity_u32,
};

#[test]
fn write_u32_in_both_orders() {
    let mut buf = [0xEEu8; 5];
    write_u32(&mut buf, 0x0102_0304, false);
    assert_eq!(buf, [0x04, 0x03, 0x02, 0x01, 0xEE]);
    write_u32(&mut buf, 0x0102_0304, true);
    assert_eq!(buf, [0x01, 0x02, 0x03, 0x04, 0xEE]);
}

#[test]
fn mask_sets_the_low_bits() {
    assert_eq!(mask(0), 0);
    assert_eq!(mask(1), 1);
    assert_eq!(mask(11), 0x7FF);
    assert_eq!(mask(31), 0x7FFF_FFFF);
}

#[test]
fn version_to_raw_packs_the_parts() {
    assert_eq!(version_to_raw(1, 0, 0), 0x100);
    assert_eq!(version_to_raw(2, 1, 3), 0x213);
    assert_eq!(version_to_raw(0xFF, 0x0F, 0x0F), 0xFFFF);
    assert_eq!(version_to_raw(0, 0x12, 0x03), 0x123);
}

#[test]
fn round_trip_of_many_words() {
    let mut buf = [0u8; 9];
    for v in [0u32, 1, 0xFF, 0x100, 0xDEAD_BEEF, 0x8000_0000, u32::MAX, 0x0123_4567] {
        for little in [true, false] {
            for offset in 0..=5 {
                buf_write_u32(&mut buf, offset, v, little);
                assert_eq!(buf_read_u32(&buf, offset, little), v);
                assert_eq!(buf_read_u32(&buf, offset, !little), v.swap_bytes());
            }
        }
    }
}

#[test]
fn append_encodes_words() {
    let mut out = vec![9u8];
    append_u32(&mut out, 0x0A0B_0C0D, true);
    append_u32(&mut out, 0x0A0B_0C0D, false);
    append_u16(&mut out, 0x0102, true);
    append_u16(&mut out, 0x0102, false);
    assert_eq!(out, vec![9, 0x0D, 0x0C, 0x0B, 0x0A, 0x0A, 0x0B, 0x0C, 0x0D, 0x02, 0x01, 0x01, 0x02]);
}

#[test]
fn parity_is_odd_for_an_odd_number_of_bits() {
    assert!(!parity_u32(0));
    assert!(parity_u32(1));
    assert!(!parity_u32(3));
    assert!(parity_u32(0x8000_0000));
    assert!(!parity_u32(u32::MAX));
    assert!(parity_u32(0x7FFF_FFFF));
    for x in [0x1234_5678u32, 0xDEAD_BEEF, 0x0F0F_0F0E, 42, 0x8000_0001] {
        assert_eq!(parity_u32(x), x.count_ones() % 2 == 1);
    }
}

#[test]
fn buf_get_u32_reads_bit_fields() {
    let buf = [0x78u8, 0x56, 0x34, 0x12, 0xFF];
    assert_eq!(buf_get_u32(&buf, 0, 32), 0x1234_5678);
    assert_eq!(buf_get_u32(&buf, 0, 8), 0x78);
    assert_eq!(buf_get_u32(&buf, 4, 8), 0x67);
    assert_eq!(buf_get_u32(&buf, 8, 32), 0xFF12_3456);
    assert_eq!(buf_get_u32(&buf, 3, 1), 1);
    assert_eq!(buf_get_u32(&buf, 0, 1), 0);
    assert_eq!(buf_get_u32(&buf, 7, 0), 0);
    assert_eq!(buf_get_u32(&buf, 12, 5), 0x05);
}

#[test]
fn buf_set_u32_writes_bit_fields() {
    let mut buf = [0u8; 5];
    buf_set_u32(&mut buf, 0, 32, 0x1234_5678);
    assert_eq!(buf, [0x78, 0x56, 0x34, 0x12, 0]);
    buf_set_u32(&mut buf, 4, 8, 0xAB);
    assert_eq!(buf, [0xB8, 0x5A, 0x34, 0x12, 0]);
    buf_set_u32(&mut buf, 8, 32, 0xFFFF_FFFF);
    assert_eq!(buf, [0xB8, 0xFF, 0xFF, 0xFF, 0xFF]);
    buf_set_u32(&mut buf, 9, 3, 0);
    assert_eq!(buf, [0xB8, 0xF1, 0xFF, 0xFF, 0xFF]);
    buf_set_u32(&mut buf, 0, 0, 0xFFFF_FFFF);
    assert_eq!(buf, [0xB8, 0xF1, 0xFF, 0xFF, 0xFF]);
    buf_set_u32(&mut buf, 32, 8, 0x1_00);
    assert_eq!(buf[4], 0);
}

#[test]
fn bit_fields_round_trip() {
    let mut buf = [0x5Au8; 8];
    for first in [0usize, 1, 7, 8, 13, 31] {
        for num in [1usize, 5, 8, 17, 32] {
            let value = 0xC3A5_96F1u32;
            buf_set_u32(&mut buf, first, num, value);
            let want = if num == 32 { value } else { value & ((1u32 << num) - 1) };
            assert_eq!(buf_get_u32(&buf, first, num), want);
        }
    }
}

#[test]
fn little_endian_words_of_the_leading_bytes() {
    let buf = [0x01u8, 0x02, 0x03, 0x04, 0x05, 0x06, 0x07, 0x08, 0x09];
    assert_eq!(le_to_h_u64(&buf), 0x0807_0605_0403_0201);
    assert_eq!(le_to_h_u32(&buf), 0x0403_0201);
    assert_eq!(le_to_h_u16(&buf), 0x0201);
}

#[test]
fn big_endian_words_of_the_leading_eight_bytes() {
    let buf = [0x01u8, 0x02, 0x03, 0x04, 0x05, 0x06, 0x07, 0x08, 0x09];
    assert_eq!(be_to_h_u64(&buf), 0x0102_0304_0506_0708);
    assert_eq!(be_to_h_u32(&buf), 0x0506_0708);
    assert_eq!(be_to_h_u16(&buf), 0x0708);
}

#[test]
fn next_access_cuts_a_request() {
    assert_eq!(next_access(0x0800_0001, 7, 4096), (false, 3));
    assert_eq!(next_access(0x0800_0002, 7, 4096), (false, 2));
    assert_eq!(next_access(0x0800_0003, 7, 4096), (false, 1));
    assert_eq!(next_access(0x0800_0001, 2, 4096), (false, 2));
    assert_eq!(next_access(0x0800_0004, 4, 4096), (true, 4));
    assert_eq!(next_access(0x0800_0004, 7, 4096), (true, 4));
    assert_eq!(next_access(0x0800_0004, 3, 4096), (false, 3));
    assert_eq!(next_access(0x0800_0000, 4096, 4096), (true, 4096));
    assert_eq!(next_access(0x0800_0000, 4099, 4096), (true, 4096));
    assert_eq!(next_access(0x0800_0000, 100_000, 4096), (true, 4096));
    assert_eq!(next_access(0, 1, 4096), (false, 1));
    assert_eq!(next_access(0x0800_0000, 4099, 1024), (true, 1024));
    assert_eq!(next_access(0x0800_0000, 1000, 1024), (true, 1000));
    assert_eq!(next_access(0x0800_0001, 4099, 4), (false, 3));
    assert_eq!(next_access(0x0800_0004, 4099, 4), (true, 4));
}

#[test]
fn accesses_cover_every_request() {
    for start in 0u32..9 {
        for n in 0usize..40 {
            let mut address = 0x2000_0000 + start;
            let mut left = n;
            let mut total = 0;
            while left > 0 {
                let (wide, len) = next_access(address, left, 4096);
                assert!(len > 0 && len <= left);
                if wide {
                    assert_eq!(address % 4, 0);
                    assert_eq!(len % 4, 0);
                } else {
                    assert!(len < 4);
                }
                address += len as u32;
                left -= len;
                total += len;
            }
            assert_eq!(total, n);
        }
    }
}
