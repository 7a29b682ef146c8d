//! Keys that unlock the flash controller.

use vstd::prelude::*;

verus! {

/// First key of the control register.
pub const KEY1: u32 = 0x4567_0123;

/// Second key of the control register.
pub const KEY2: u32 = 0xCDEF_89AB;

/// First key of the option register.
pub const OPTKEY1: u32 = 0x0819_2A3B;

/// Second key of the option register.
pub const OPTKEY2: u32 = 0x4C5D_6E7F;

} // verus!
