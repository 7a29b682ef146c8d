//! Command opcodes and status codes.

pub mod debug;
pub mod dfu;
pub mod swd;
pub mod swim;

use vstd::prelude::*;

verus! {

pub const STLINK_BAD_AP_ERROR: u32 = 0x1d;

pub const STLINK_CORE_RUNNING: u32 = 0x80;

pub const STLINK_CORE_HALTED: u32 = 0x81;

pub const STLINK_CORE_STAT_UNKNOWN: u32 = 0xFFFF_FFFF;

pub const GET_VERSION: u8 = 0xF1;

/// Extended version query of generation 3.
pub const GET_VERSION_EXT: u8 = 0xFB;

pub const GET_CURRENT_MODE: u8 = 0xF5;

pub const GET_TARGET_VOLTAGE: u8 = 0xF7;

} // verus!
