//! Generation 3.

use vstd::prelude::*;

verus! {

pub const USBLOADER_PID: u16 = 0x374D;

pub const MAX_RW: usize = 512;

pub const MAX_FREQ_NB: u8 = 10;

} // verus!
