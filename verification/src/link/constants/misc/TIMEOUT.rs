//! Time limits of bulk transfers, in seconds.

use vstd::prelude::*;

verus! {

pub const WRITE: u64 = 120;

pub const READ: u64 = 120;

} // verus!
