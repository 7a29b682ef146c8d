//! Bits of the debug exception and monitor control register.

use vstd::prelude::*;

verus! {

pub const TRCENA: u32 = 0x0100_0000;

pub const VC_HARDERR: u32 = 0x0000_0400;

pub const VC_INTERR: u32 = 0x0000_0200;

pub const VC_BUSERR: u32 = 0x0000_0100;

pub const VC_STATERR: u32 = 0x0000_0080;

pub const VC_CHKERR: u32 = 0x0000_0040;

pub const VC_NOCPERR: u32 = 0x0000_0020;

pub const VC_MMERR: u32 = 0x0000_0010;

pub const VC_CORERESET: u32 = 0x0000_0001;

} // verus!
