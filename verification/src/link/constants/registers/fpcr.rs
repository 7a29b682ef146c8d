//! Fields of a flash patch comparator.

use vstd::prelude::*;

verus! {

pub const CODE: u32 = 0;

pub const LITERAL: u32 = 1;

pub const REPLACE_REMAP: u32 = 0x0000_0000;

pub const REPLACE_BKPT_LOW: u32 = 0x4000_0000;

pub const REPLACE_BKPT_HIGH: u32 = 0x8000_0000;

pub const REPLACE_BKPT_BOTH: u32 = 0xC000_0000;

} // verus!
