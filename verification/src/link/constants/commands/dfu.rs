//! Commands of the DFU group.

use vstd::prelude::*;

verus! {

pub const EXIT: u8 = 0x07;

pub const COMMAND: u8 = 0xF3;

} // verus!
