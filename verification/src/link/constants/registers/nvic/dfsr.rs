//! Bits of the debug fault status register.

use vstd::prelude::*;

verus! {

pub const HALTED: u32 = 1;

pub const BKPT: u32 = 2;

pub const DWTTRAP: u32 = 4;

pub const VCATCH: u32 = 8;

} // verus!
