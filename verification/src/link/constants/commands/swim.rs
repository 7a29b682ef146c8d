//! Commands of the SWIM group.

use vstd::prelude::*;

verus! {

pub const SWIM_COMMAND: u8 = 0xF4;

pub const ERR_OK: u8 = 0x00;

pub const BUSY: u8 = 0x01;

pub const ENTER: u8 = 0x00;

pub const EXIT: u8 = 0x01;

pub const READ_CAP: u8 = 0x02;

pub const SPEED: u8 = 0x03;

pub const ENTER_SEQ: u8 = 0x04;

pub const GEN_RST: u8 = 0x05;

pub const RESET: u8 = 0x06;

pub const ASSERT_RESET: u8 = 0x07;

pub const DEASSERT_RESET: u8 = 0x08;

pub const READSTATUS: u8 = 0x09;

pub const WRITEMEM: u8 = 0x0a;

pub const READMEM: u8 = 0x0b;

pub const READBUF: u8 = 0x0c;

} // verus!
