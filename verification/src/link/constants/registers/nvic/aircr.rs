//! Bits of the application interrupt and reset control register.

use vstd::prelude::*;

verus! {

pub const VECTKEY: u32 = 0x05FA_0000;

pub const SYSRESETREQ: u32 = 0x0000_0004;

pub const VECTCLRACTIVE: u32 = 0x0000_0002;

pub const VECTRESET: u32 = 0x0000_0001;

} // verus!
