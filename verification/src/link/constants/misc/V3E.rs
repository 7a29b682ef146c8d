//! Generation 3, embedded variant.

use vstd::prelude::*;

verus! {

pub const PID: u16 = 0x374E;

pub const MAX_RW: usize = 512;

} // verus!
