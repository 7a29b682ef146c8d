//! Helpers shared by the whole crate.

use vstd::prelude::*;
use crate::link::util::{byte_of, bytes_u32, overlay};

verus! {

/// Stores `ui` in the first four bytes of `buffer`: most significant byte
/// first when `swap` holds, least significant byte first otherwise.
pub fn write_u32(buffer: &mut [u8], ui: u32, swap: bool)
    requires
        old(buffer)@.len() >= 4,
    ensures
        final(buffer)@ == overlay(old(buffer)@, 0, bytes_u32(ui, !swap)),
{
    crate::link::util::buf_write_u32(buffer, 0, ui, !swap);
}

/// The mask with the low `bits` bits set.
pub fn mask(bits: u32) -> (m: u32)
    requires
        bits < 32,
    ensures
        m == (1u32 << bits) - 1,
{
    assert((1u32 << bits) >= 1) by (bit_vector)
        requires
            bits < 32,
    ;
    (1u32 << bits) - 1
}

/// A USB release number packed as binary-coded decimal: the major number
/// above bit 8, the minor number in bits 4 to 7 and the sub-minor number in
/// the low four bits.
pub open spec fn spec_version_to_raw(major: u8, minor: u8, sub_minor: u8) -> usize {
    ((major as usize) << 8) | ((minor as usize) << 4) | (sub_minor as usize)
}

/// Packs the three parts of a USB release number into one word.
pub fn version_to_raw(major: u8, minor: u8, sub_minor: u8) -> (raw: usize)
    ensures
        raw == spec_version_to_raw(major, minor, sub_minor),
{
    ((major as usize) << 8) | ((minor as usize) << 4) | (sub_minor as usize)
}

} // verus!
