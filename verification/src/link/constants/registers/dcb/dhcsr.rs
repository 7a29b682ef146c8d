//! Bits of the debug halting control and status register.

use vstd::prelude::*;

verus! {

pub const DBGKEY: u32 = 0xA05F_0000;

pub const C_DEBUGEN: u32 = 0x0000_0001;

pub const C_HALT: u32 = 0x0000_0002;

pub const C_STEP: u32 = 0x0000_0004;

pub const C_MASKINTS: u32 = 0x0000_0008;

pub const S_REGRDY: u32 = 0x0001_0000;

pub const S_HALT: u32 = 0x0002_0000;

pub const S_SLEEP: u32 = 0x0004_0000;

pub const S_LOCKUP: u32 = 0x0008_0000;

pub const S_RETIRE_ST: u32 = 0x0100_0000;

pub const S_RESET_ST: u32 = 0x0200_0000;

} // verus!
