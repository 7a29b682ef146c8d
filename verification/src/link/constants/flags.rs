//! Feature flags of a probe, one bit each.

use vstd::prelude::*;

verus! {

pub const HAS_TRACE: u32 = 0x01;

pub const HAS_SWD_SET_FREQ: u32 = 0x02;

pub const HAS_JTAG_SET_FREQ: u32 = 0x04;

pub const HAS_MEM_16BIT: u32 = 0x08;

pub const HAS_GETLASTRWSTATUS2: u32 = 0x10;

/// Probes that can trace can also measure the target voltage.
pub const HAS_TARGET_VOLT: u32 = HAS_TRACE;

} // verus!
