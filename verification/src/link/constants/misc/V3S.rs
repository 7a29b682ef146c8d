//! Generation 3, stand-alone variant.

use vstd::prelude::*;

verus! {

pub const PID: u16 = 0x374F;

pub const MAX_RW: usize = 512;

} // verus!
