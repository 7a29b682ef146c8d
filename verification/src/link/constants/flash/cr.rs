//! Bits of the flash control register.

use vstd::prelude::*;

verus! {

pub const PG: u32 = 0x0000_0001;

pub const SER: u32 = 0x0000_0002;

/// Mass erase; MER1 on F76x and F77x.
pub const MER: u32 = 0x0000_0004;

/// Mass erase of the second bank on F76x and F77x.
pub const MER1: u32 = 0x0000_8000;

pub const STRT: u32 = 0x0001_0000;

pub const PSIZE_8: u32 = 0x0000_0000;

pub const PSIZE_16: u32 = 0x0000_0100;

pub const PSIZE_32: u32 = 0x0000_0200;

pub const PSIZE_64: u32 = 0x0000_0300;

pub const LOCK: u32 = 0x8000_0000;

} // verus!
