//! Data watchpoint and trace unit.

use vstd::prelude::*;

verus! {

pub const CTRL: u32 = 0xE000_1000;

pub const CYCCNT: u32 = 0xE000_1004;

pub const PCSR: u32 = 0xE000_101C;

pub const COMP0: u32 = 0xE000_1020;

pub const MASK0: u32 = 0xE000_1024;

pub const FUNCTION0: u32 = 0xE000_1028;

} // verus!
