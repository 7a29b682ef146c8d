//! Generation 2.1.

use vstd::prelude::*;

verus! {

pub const STLINK_V2_1_TX_EP: u8 = 0x01;

pub const STLINK_V2_1_TRACE_EP: u8 = 0x82;

pub const STLINK_V2_1_PID: u16 = 0x374B;

pub const STLINK_V2_1_NO_MSD_PID: u16 = 0x3752;

pub const MAX_RW: usize = 64;

} // verus!
