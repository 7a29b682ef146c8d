//! Generation 2.

use vstd::prelude::*;

verus! {

pub const PID: u16 = 0x3748;

pub const CMD_SIZE: usize = 16;

pub const MAX_RW: usize = 64;

} // verus!
