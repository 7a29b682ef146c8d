//! Flash patch and breakpoint unit.

use vstd::prelude::*;

verus! {

pub const CTRL: u32 = 0xE000_2000;

pub const REMAP: u32 = 0xE000_2004;

pub const COMP0: u32 = 0xE000_2008;

pub const COMP1: u32 = 0xE000_200C;

pub const COMP2: u32 = 0xE000_2010;

pub const COMP3: u32 = 0xE000_2014;

pub const COMP4: u32 = 0xE000_2018;

pub const COMP5: u32 = 0xE000_201C;

pub const COMP6: u32 = 0xE000_2020;

pub const COMP7: u32 = 0xE000_2024;

} // verus!
