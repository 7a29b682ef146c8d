//! Floating point unit.

use vstd::prelude::*;

verus! {

pub const CPACR: u32 = 0xE000_ED88;

pub const FPCCR: u32 = 0xE000_EF34;

pub const FPCAR: u32 = 0xE000_EF38;

pub const FPDSCR: u32 = 0xE000_EF3C;

} // verus!
