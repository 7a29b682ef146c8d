//! Debug commands of the second command set.

use vstd::prelude::*;

verus! {

pub const ENTER: u8 = 0x30;

pub const READ_IDCODES: u8 = 0x31;

pub const RESETSYS: u8 = 0x32;

pub const READREG: u8 = 0x33;

pub const WRITEREG: u8 = 0x34;

pub const WRITEDEBUGREG: u8 = 0x35;

pub const READDEBUGREG: u8 = 0x36;

pub const READALLREGS: u8 = 0x3A;

pub const GETLASTRWSTATUS: u8 = 0x3B;

pub const DRIVE_NRST: u8 = 0x3C;

pub const GETLASTRWSTATUS2: u8 = 0x3E;

pub const START_TRACE_RX: u8 = 0x40;

pub const STOP_TRACE_RX: u8 = 0x41;

pub const GET_TRACE_NB: u8 = 0x42;

pub const SWD_SET_FREQ: u8 = 0x43;

pub const JTAG_SET_FREQ: u8 = 0x44;

pub const READMEM_16BIT: u8 = 0x47;

pub const WRITEMEM_16BIT: u8 = 0x48;

pub const DRIVE_NRST_LOW: u8 = 0x00;

pub const DRIVE_NRST_HIGH: u8 = 0x01;

pub const DRIVE_NRST_PULSE: u8 = 0x02;

} // verus!
