//! Generation 1.

use vstd::prelude::*;

verus! {

pub const PID: u16 = 0x3744;

pub const CMD_SIZE: usize = 10;

pub const MAX_RW: usize = 64;

} // verus!
