//! Debug commands of the third command set.

use vstd::prelude::*;

verus! {

pub const SET_COM_FREQ: u8 = 0x61;

pub const GET_COM_FREQ: u8 = 0x62;

} // verus!
