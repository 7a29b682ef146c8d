//! Sizes of the buffers of a session.

use vstd::prelude::*;

verus! {

pub const SG: usize = 31;

pub const DATA: usize = 4096;

/// Length of the wrapper in front of a command of generation 1.
pub const CBW: usize = 15;

/// Length of the status wrapper that generation 1 sends after a transfer.
pub const CSW: usize = 13;

} // verus!
