//! Commands of the debug group.

pub mod apiv1;
pub mod apiv2;
pub mod apiv3;

use vstd::prelude::*;

verus! {

pub const DEBUG_COMMAND: u8 = 0xF2;

pub const GETSTATUS: u8 = 0x01;

pub const FORCEDEBUG: u8 = 0x02;

pub const READMEM_32BIT: u8 = 0x07;

pub const WRITEMEM_32BIT: u8 = 0x08;

pub const RUNCORE: u8 = 0x09;

pub const STEPCORE: u8 = 0x0a;

pub const READMEM_8BIT: u8 = 0x0c;

pub const WRITEMEM_8BIT: u8 = 0x0d;

pub const ENTER_JTAG_RESET: u8 = 0x00;

pub const ENTER_SWD_NO_RESET: u8 = 0xa3;

pub const ENTER_JTAG_NO_RESET: u8 = 0xa4;

pub const EXIT: u8 = 0x21;

pub const READCOREID: u8 = 0x22;

pub const ERR_OK: u8 = 0x80;

pub const ERR_FAULT: u8 = 0x81;

} // verus!
