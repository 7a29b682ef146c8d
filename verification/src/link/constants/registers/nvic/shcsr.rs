//! Bits of the system handler control and state register.

use vstd::prelude::*;

verus! {

pub const BUSFAULTENA: u32 = 0x0002_0000;

} // verus!
