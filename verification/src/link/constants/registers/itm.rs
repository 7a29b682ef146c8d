//! Instrumentation trace macrocell.

use vstd::prelude::*;

verus! {

pub const TER0: u32 = 0xE000_0E00;

pub const TPR: u32 = 0xE000_0E40;

pub const TCR: u32 = 0xE000_0E80;

pub const LAR: u32 = 0xE000_0FB0;

pub const LAR_KEY: u32 = 0xC5AC_CE55;

} // verus!
