//! Fixed-endian reads and writes of 16- and 32-bit words in byte buffers.

use vstd::prelude::*;

verus! {

/// The 16-bit word whose low byte is `lo` and whose high byte is `hi`.
pub open spec fn word16(lo: u8, hi: u8) -> u16 {
    (lo as int + 0x100 * (hi as int)) as u16
}

/// The 32-bit word made of four bytes, `b0` the least significant.
pub open spec fn word32(b0: u8, b1: u8, b2: u8, b3: u8) -> u32 {
    (b0 as int + 0x100 * (b1 as int) + 0x1_0000 * (b2 as int) + 0x100_0000 * (b3 as int)) as u32
}

/// Byte `k` of `value`, byte 0 being the least significant.
pub open spec fn byte_of(value: u32, k: int) -> u8 {
    if k == 0 {
        (value as int % 0x100) as u8
    } else if k == 1 {
        (value as int / 0x100 % 0x100) as u8
    } else if k == 2 {
        (value as int / 0x1_0000 % 0x100) as u8
    } else {
        (value as int / 0x100_0000 % 0x100) as u8
    }
}

/// The 32-bit word stored at `offset`, in the byte order that `little` selects.
pub open spec fn spec_read_u32(buffer: Seq<u8>, offset: int, little: bool) -> u32 {
    if little {
        word32(buffer[offset], buffer[offset + 1], buffer[offset + 2], buffer[offset + 3])
    } else {
        word32(buffer[offset + 3], buffer[offset + 2], buffer[offset + 1], buffer[offset])
    }
}

/// The 16-bit word stored at `offset`, in the byte order that `little` selects.
pub open spec fn spec_read_u16(buffer: Seq<u8>, offset: int, little: bool) -> u16 {
    if little {
        word16(buffer[offset], buffer[offset + 1])
    } else {
        word16(buffer[offset + 1], buffer[offset])
    }
}

/// The four bytes that encode `value`, first byte first.
pub open spec fn bytes_u32(value: u32, little: bool) -> Seq<u8> {
    if little {
        seq![byte_of(value, 0), byte_of(value, 1), byte_of(value, 2), byte_of(value, 3)]
    } else {
        seq![byte_of(value, 3), byte_of(value, 2), byte_of(value, 1), byte_of(value, 0)]
    }
}

/// The two bytes that encode `value`, first byte first.
pub open spec fn bytes_u16(value: u16, little: bool) -> Seq<u8> {
    if little {
        seq![byte_of(value as u32, 0), byte_of(value as u32, 1)]
    } else {
        seq![byte_of(value as u32, 1), byte_of(value as u32, 0)]
    }
}

/// `buffer` with the bytes of `patch` laid over it from `offset` on.
pub open spec fn overlay(buffer: Seq<u8>, offset: int, patch: Seq<u8>) -> Seq<u8> {
    Seq::new(
        buffer.len(),
        |i: int|
            if offset <= i < offset + patch.len() {
                patch[i - offset]
            } else {
                buffer[i]
            },
    )
}

/// `buffer` after `value` was stored at `offset`.
pub open spec fn spec_write_u32(buffer: Seq<u8>, offset: int, value: u32, little: bool) -> Seq<u8> {
    overlay(buffer, offset, bytes_u32(value, little))
}

/// `buffer` after `value` was stored at `offset`.
pub open spec fn spec_write_u16(buffer: Seq<u8>, offset: int, value: u16, little: bool) -> Seq<u8> {
    overlay(buffer, offset, bytes_u16(value, little))
}

proof fn lemma_join32(b0: u8, b1: u8, b2: u8, b3: u8)
    ensures
        (b0 as u32) << 0 | (b1 as u32) << 8 | (b2 as u32) << 16 | (b3 as u32) << 24 == word32(
            b0,
            b1,
            b2,
            b3,
        ),
{
    assert((b0 as u32) << 0 | (b1 as u32) << 8 | (b2 as u32) << 16 | (b3 as u32) << 24 == (b0 as u32)
        + 0x100 * (b1 as u32) + 0x1_0000 * (b2 as u32) + 0x100_0000 * (b3 as u32)) by (bit_vector);
}

proof fn lemma_join16(lo: u8, hi: u8)
    ensures
        (lo as u16) << 0 | (hi as u16) << 8 == word16(lo, hi),
{
    assert((lo as u16) << 0 | (hi as u16) << 8 == (lo as u16) + 0x100 * (hi as u16))
        by (bit_vector);
}

proof fn lemma_split32(value: u32)
    ensures
        (value >> 0) as u8 == byte_of(value, 0),
        (value >> 8) as u8 == byte_of(value, 1),
        (value >> 16) as u8 == byte_of(value, 2),
        (value >> 24) as u8 == byte_of(value, 3),
{
    assert((value >> 0) as u8 == (value % 0x100) as u8) by (bit_vector);
    assert((value >> 8) as u8 == (value / 0x100 % 0x100) as u8) by (bit_vector);
    assert((value >> 16) as u8 == (value / 0x1_0000 % 0x100) as u8) by (bit_vector);
    assert((value >> 24) as u8 == (value / 0x100_0000 % 0x100) as u8) by (bit_vector);
}

proof fn lemma_split16(value: u16)
    ensures
        (value >> 0) as u8 == byte_of(value as u32, 0),
        (value >> 8) as u8 == byte_of(value as u32, 1),
{
    assert((value >> 0) as u8 == ((value as u32) % 0x100) as u8) by (bit_vector);
    assert((value >> 8) as u8 == ((value as u32) / 0x100 % 0x100) as u8) by (bit_vector);
}

/// Reads the 32-bit word at `offset`, least significant byte first when
/// `little` holds and most significant byte first otherwise.
#[inline]
pub fn buf_read_u32(buffer: &[u8], offset: usize, little: bool) -> (value: u32)
    requires
        offset + 4 <= buffer@.len(),
    ensures
        value == spec_read_u32(buffer@, offset as int, little),
{
    let b0 = buffer[offset];
    let b1 = buffer[offset + 1];
    let b2 = buffer[offset + 2];
    let b3 = buffer[offset + 3];
    if little {
        proof {
            lemma_join32(b0, b1, b2, b3);
        }
        (b0 as u32) << 0 | (b1 as u32) << 8 | (b2 as u32) << 16 | (b3 as u32) << 24
    } else {
        proof {
            lemma_join32(b3, b2, b1, b0);
        }
        (b3 as u32) << 0 | (b2 as u32) << 8 | (b1 as u32) << 16 | (b0 as u32) << 24
    }
}

/// Stores `value` at `offset`, least significant byte first when `little`
/// holds and most significant byte first otherwise. No other byte changes.
#[inline]
pub fn buf_write_u32(buffer: &mut [u8], offset: usize, value: u32, little: bool)
    requires
        offset + 4 <= old(buffer)@.len(),
    ensures
        final(buffer)@ == spec_write_u32(old(buffer)@, offset as int, value, little),
{
    proof {
        lemma_split32(value);
    }
    if little {
        buffer[offset] = #[verifier::truncate] ((value >> 0) as u8);
        buffer[offset + 1] = #[verifier::truncate] ((value >> 8) as u8);
        buffer[offset + 2] = #[verifier::truncate] ((value >> 16) as u8);
        buffer[offset + 3] = #[verifier::truncate] ((value >> 24) as u8);
    } else {
        buffer[offset] = #[verifier::truncate] ((value >> 24) as u8);
        buffer[offset + 1] = #[verifier::truncate] ((value >> 16) as u8);
        buffer[offset + 2] = #[verifier::truncate] ((value >> 8) as u8);
        buffer[offset + 3] = #[verifier::truncate] ((value >> 0) as u8);
    }
    assert(buffer@ =~= spec_write_u32(old(buffer)@, offset as int, value, little));
}

/// Reads the 16-bit word at `offset`, least significant byte first when
/// `little` holds and most significant byte first otherwise.
#[inline]
pub fn buf_read_u16(buffer: &[u8], offset: usize, little: bool) -> (value: u16)
    requires
        offset + 2 <= buffer@.len(),
    ensures
        value == spec_read_u16(buffer@, offset as int, little),
{
    let b0 = buffer[offset];
    let b1 = buffer[offset + 1];
    if little {
        proof {
            lemma_join16(b0, b1);
        }
        (b0 as u16) << 0 | (b1 as u16) << 8
    } else {
        proof {
            lemma_join16(b1, b0);
        }
        (b1 as u16) << 0 | (b0 as u16) << 8
    }
}

/// Stores `value` at `offset`, least significant byte first when `little`
/// holds and most significant byte first otherwise. No other byte changes.
#[inline]
pub fn buf_write_u16(buffer: &mut [u8], offset: usize, value: u16, little: bool)
    requires
        offset + 2 <= old(buffer)@.len(),
    ensures
        final(buffer)@ == spec_write_u16(old(buffer)@, offset as int, value, little),
{
    proof {
        lemma_split16(value);
    }
    if little {
        buffer[offset] = #[verifier::truncate] ((value >> 0) as u8);
        buffer[offset + 1] = #[verifier::truncate] ((value >> 8) as u8);
    } else {
        buffer[offset] = #[verifier::truncate] ((value >> 8) as u8);
        buffer[offset + 1] = #[verifier::truncate] ((value >> 0) as u8);
    }
    assert(buffer@ =~= spec_write_u16(old(buffer)@, offset as int, value, little));
}

/// Appends the four bytes that encode `value` to `out`.
pub fn append_u32(out: &mut Vec<u8>, value: u32, little: bool)
    ensures
        final(out)@ == old(out)@ + bytes_u32(value, little),
{
    proof {
        lemma_split32(value);
    }
    let b0 = #[verifier::truncate] ((value >> 0) as u8);
    let b1 = #[verifier::truncate] ((value >> 8) as u8);
    let b2 = #[verifier::truncate] ((value >> 16) as u8);
    let b3 = #[verifier::truncate] ((value >> 24) as u8);
    if little {
        out.push(b0);
        out.push(b1);
        out.push(b2);
        out.push(b3);
    } else {
        out.push(b3);
        out.push(b2);
        out.push(b1);
        out.push(b0);
    }
    assert(out@ =~= old(out)@ + bytes_u32(value, little));
}

/// Appends the two bytes that encode `value` to `out`.
pub fn append_u16(out: &mut Vec<u8>, value: u16, little: bool)
    ensures
        final(out)@ == old(out)@ + bytes_u16(value, little),
{
    proof {
        lemma_split16(value);
    }
    let b0 = #[verifier::truncate] ((value >> 0) as u8);
    let b1 = #[verifier::truncate] ((value >> 8) as u8);
    if little {
        out.push(b0);
        out.push(b1);
    } else {
        out.push(b1);
        out.push(b0);
    }
    assert(out@ =~= old(out)@ + bytes_u16(value, little));
}

/// A 32-bit word read back from where it was written, in the same byte
/// order, is the word that was written.
pub proof fn lemma_u32_round_trip(buffer: Seq<u8>, offset: int, value: u32, little: bool)
    requires
        0 <= offset,
        offset + 4 <= buffer.len(),
    ensures
        spec_read_u32(spec_write_u32(buffer, offset, value, little), offset, little) == value,
{
    let v = value as int;
    assert(v % 0x100 + 0x100 * (v / 0x100 % 0x100) + 0x1_0000 * (v / 0x1_0000 % 0x100) + 0x100_0000
        * (v / 0x100_0000 % 0x100) == v);
}

/// A 16-bit word read back from where it was written, in the same byte
/// order, is the word that was written.
pub proof fn lemma_u16_round_trip(buffer: Seq<u8>, offset: int, value: u16, little: bool)
    requires
        0 <= offset,
        offset + 2 <= buffer.len(),
    ensures
        spec_read_u16(spec_write_u16(buffer, offset, value, little), offset, little) == value,
{
    let v = value as int;
    assert(v % 0x100 + 0x100 * (v / 0x100 % 0x100) == v);
}

} // verus!
