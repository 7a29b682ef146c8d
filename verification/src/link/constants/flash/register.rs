//! Registers of the flash controller.

use vstd::prelude::*;

verus! {

pub const BASE: u32 = 0x4002_3c00;

pub const ACR: u32 = 0x4002_3c00;

pub const KEYR: u32 = 0x4002_3c04;

pub const OPTKEYR: u32 = 0x4002_3c08;

pub const SR: u32 = 0x4002_3c0C;

pub const CR: u32 = 0x4002_3c10;

pub const OPTCR: u32 = 0x4002_3c14;

pub const OPTCR1: u32 = 0x4002_3c18;

pub const OPTCR2: u32 = 0x4002_3c1c;

} // verus!
