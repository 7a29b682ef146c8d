//! Debug control block.

pub mod demcr;
pub mod dhcsr;

use vstd::prelude::*;

verus! {

pub const DHCSREG: u32 = 0xE000_EDF0;

pub const DCRSREG: u32 = 0xE000_EDF4;

pub const DCRDREG: u32 = 0xE000_EDF8;

pub const DEMCREG: u32 = 0xE000_EDFC;

} // verus!
