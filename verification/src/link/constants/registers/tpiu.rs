//! Trace port interface unit.

use vstd::prelude::*;

verus! {

pub const SSPSR: u32 = 0xE004_0000;

pub const CSPSR: u32 = 0xE004_0004;

pub const ACPR: u32 = 0xE004_0010;

pub const SPPR: u32 = 0xE004_00F0;

pub const FFSR: u32 = 0xE004_0300;

pub const FFCR: u32 = 0xE004_0304;

pub const FSCR: u32 = 0xE004_0308;

} // verus!
