//! Registers of the system control block.

use vstd::prelude::*;

verus! {

pub const ICTR: u32 = 0xE000_E004;

pub const ISE0: u32 = 0xE000_E100;

pub const ICSR: u32 = 0xE000_ED04;

pub const AIRCR: u32 = 0xE000_ED0C;

pub const SHCSR: u32 = 0xE000_ED24;

pub const CFSR: u32 = 0xE000_ED28;

#[allow(non_upper_case_globals)]
pub const MMFSRb: u32 = 0xE000_ED28;

#[allow(non_upper_case_globals)]
pub const BFSRb: u32 = 0xE000_ED29;

#[allow(non_upper_case_globals)]
pub const USFSRh: u32 = 0xE000_ED2A;

pub const HFSR: u32 = 0xE000_ED2C;

pub const DFSR: u32 = 0xE000_ED30;

pub const MMFAR: u32 = 0xE000_ED34;

pub const BFAR: u32 = 0xE000_ED38;

} // verus!
