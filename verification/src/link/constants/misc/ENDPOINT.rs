//! Addresses of the bulk endpoints.

use vstd::prelude::*;

verus! {

pub const ENDPOINT_IN: u8 = 0x80;

pub const ENDPOINT_OUT: u8 = 0x00;

pub const STLINK_NULL_EP: u8 = 0x00;

pub const STLINK_RX_EP: u8 = 0x81;

pub const STLINK_TX_EP: u8 = 0x02;

pub const STLINK_TRACE_EP: u8 = 0x83;

} // verus!
