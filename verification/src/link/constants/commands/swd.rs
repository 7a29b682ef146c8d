//! Status codes of the SWD layer.

use vstd::prelude::*;

verus! {

pub const AP_WAIT: u8 = 0x10;

pub const AP_FAULT: u8 = 0x11;

pub const AP_ERROR: u8 = 0x12;

pub const AP_PARITY_ERROR: u8 = 0x13;

pub const DP_WAIT: u8 = 0x14;

pub const DP_FAULT: u8 = 0x15;

pub const DP_ERROR: u8 = 0x16;

pub const DP_PARITY_ERROR: u8 = 0x17;

pub const AP_WDATA_ERROR: u8 = 0x18;

pub const AP_STICKY_ERROR: u8 = 0x19;

pub const AP_STICKYORUN_ERROR: u8 = 0x1a;

} // verus!
