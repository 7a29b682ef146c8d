//! Debug commands of the first command set.

use vstd::prelude::*;

verus! {

pub const SETFP: u8 = 0x0b;

pub const CLEARFP: u8 = 0x0e;

pub const WRITEDEBUGREG: u8 = 0x0f;

pub const SETWATCHPOINT: u8 = 0x10;

pub const RESETSYS: u8 = 0x03;

pub const READALLREGS: u8 = 0x04;

pub const READREG: u8 = 0x05;

pub const WRITEREG: u8 = 0x06;

pub const ENTER: u8 = 0x20;

} // verus!
