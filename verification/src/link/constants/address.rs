//! Addresses of identification registers of the target.

use vstd::prelude::*;

verus! {

/// CPUID register of the system control block.
pub const CPUID: u32 = 0xE000_ED00;

/// Device identification register of the debug unit.
pub const DBGMCU_IDCODE: u32 = 0xE004_2000;

/// Address at which the main flash is mapped.
pub const FLASH_BASE: u32 = 0x0800_0000;

} // verus!
