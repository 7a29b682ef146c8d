//! Generation 3, second variant.

use vstd::prelude::*;

verus! {

pub const PID: u16 = 0x3753;

pub const MAX_RW: usize = 512;

} // verus!
