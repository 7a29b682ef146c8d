//! Sizes, endpoints and product identifiers.

#[allow(non_snake_case)]
pub mod ENDPOINT;
#[allow(non_snake_case)]
pub mod SIZE;
#[allow(non_snake_case)]
pub mod TIMEOUT;
#[allow(non_snake_case)]
pub mod V1;
#[allow(non_snake_case)]
pub mod V2;
#[allow(non_snake_case)]
pub mod V2_1;
#[allow(non_snake_case)]
pub mod V3;
#[allow(non_snake_case)]
pub mod V3E;
#[allow(non_snake_case)]
pub mod V3S;
#[allow(non_snake_case)]
pub mod V3_2;

use vstd::prelude::*;

verus! {

/// USB vendor identifier of the probes.
pub const VENDOR_ID: u16 = 0x0483;

} // verus!
