//! Bit-level helpers: parity, bit fields in byte buffers, and fixed-endian
//! decoding of the leading bytes of a buffer.

use vstd::prelude::*;
use crate::link::util::{word16, word32};

verus! {

/// Bit `j` of the 32-bit word `w`.
pub open spec fn bit32(w: u32, j: int) -> bool {
    (w >> (j as u32)) & 1 == 1
}

/// Bit `j` of the byte `b`.
pub open spec fn bit8(b: u8, j: int) -> bool {
    (b >> (j as u8)) & 1 == 1
}

/// Bit `i` of a buffer, where bit 0 is the least significant bit of byte 0.
pub open spec fn buffer_bit(buffer: Seq<u8>, i: int) -> bool {
    bit8(buffer[i / 8], i % 8)
}

/// The exclusive or of all 32 bits of `x`, as 0 or 1.
pub open spec fn xor_of_bits(x: u32) -> u32 {
    (x ^ (x >> 1) ^ (x >> 2) ^ (x >> 3) ^ (x >> 4) ^ (x >> 5) ^ (x >> 6) ^ (x >> 7) ^ (x >> 8) ^ (x
        >> 9) ^ (x >> 10) ^ (x >> 11) ^ (x >> 12) ^ (x >> 13) ^ (x >> 14) ^ (x >> 15) ^ (x >> 16)
        ^ (x >> 17) ^ (x >> 18) ^ (x >> 19) ^ (x >> 20) ^ (x >> 21) ^ (x >> 22) ^ (x >> 23) ^ (x
        >> 24) ^ (x >> 25) ^ (x >> 26) ^ (x >> 27) ^ (x >> 28) ^ (x >> 29) ^ (x >> 30) ^ (x >> 31))
        & 1
}

/// Whether an odd number of bits is set in `x`.
#[inline]
pub fn parity_u32(x: u32) -> (odd: bool)
    ensures
        odd == (xor_of_bits(x) == 1),
{
    let mut y: u32 = x;
    y ^= y >> 16;
    y ^= y >> 8;
    y ^= y >> 4;
    y ^= y >> 2;
    y ^= y >> 1;
    assert(y & 1 == xor_of_bits(x)) by (bit_vector)
        requires
            y == {
                let a = x ^ (x >> 16);
                let b = a ^ (a >> 8);
                let c = b ^ (b >> 4);
                let d = c ^ (c >> 2);
                d ^ (d >> 1)
            },
    ;
    y & 1 == 1
}

proof fn lemma_or_bit32(r: u32, k: u32, j: u32)
    by (bit_vector)
    requires
        k < 32,
        j < 32,
    ensures
        (((r | (1u32 << k)) >> j) & 1 == 1) == (j == k || (r >> j) & 1 == 1),
{
}

proof fn lemma_zero_bit32(j: u32)
    by (bit_vector)
    requires
        j < 32,
    ensures
        (0u32 >> j) & 1 == 0,
{
}

proof fn lemma_or_bit8(b: u8, k: u8, j: u8)
    by (bit_vector)
    requires
        k < 8,
        j < 8,
    ensures
        (((b | (1u8 << k)) >> j) & 1 == 1) == (j == k || (b >> j) & 1 == 1),
{
}

proof fn lemma_clear_bit8(b: u8, k: u8, j: u8)
    by (bit_vector)
    requires
        k < 8,
        j < 8,
    ensures
        (((b & !(1u8 << k)) >> j) & 1 == 1) == (j != k && (b >> j) & 1 == 1),
{
}

proof fn lemma_word_bits(b0: u8, b1: u8, b2: u8, b3: u8, j: u32)
    by (bit_vector)
    requires
        j < 32,
    ensures
        ((((b0 as u32) | (b1 as u32) << 8 | (b2 as u32) << 16 | (b3 as u32) << 24) >> j) & 1 == 1)
            == (if j < 8 {
            (b0 >> (j as u8)) & 1 == 1
        } else if j < 16 {
            (b1 >> ((j - 8) as u8)) & 1 == 1
        } else if j < 24 {
            (b2 >> ((j - 16) as u8)) & 1 == 1
        } else {
            (b3 >> ((j - 24) as u8)) & 1 == 1
        }),
{
}

proof fn lemma_byte_bits(value: u32, k: u32, j: u8)
    by (bit_vector)
    requires
        k < 4,
        j < 8,
    ensures
        (((((value >> (8 * k)) & 0xff) as u8) >> j) & 1 == 1) == ((value >> (8 * k + (j as u32)))
            & 1 == 1),
{
}

/// Collects `num` bits of `buffer`, starting at bit `first`, into the low
/// bits of a word: bit `j` of the result is bit `first + j` of the buffer,
/// and the bits from `num` up are clear.
#[inline]
pub fn buf_get_u32(buffer: &[u8], first: usize, num: usize) -> (result: u32)
    requires
        num <= 32,
        first + num <= usize::MAX,
        first + num <= 8 * buffer@.len(),
    ensures
        forall|j: int|
            0 <= j < 32 ==> #[trigger] bit32(result, j) == (j < num && buffer_bit(
                buffer@,
                first + j,
            )),
{
    if num == 32 && first == 0 {
        let b0 = buffer[0];
        let b1 = buffer[1];
        let b2 = buffer[2];
        let b3 = buffer[3];
        let result = (b3 as u32) << 24 | (b2 as u32) << 16 | (b1 as u32) << 8 | (b0 as u32) << 0;
        assert(result == (b0 as u32) | (b1 as u32) << 8 | (b2 as u32) << 16 | (b3 as u32) << 24)
            by (bit_vector)
            requires
                result == (b3 as u32) << 24 | (b2 as u32) << 16 | (b1 as u32) << 8 | (b0 as u32)
                    << 0,
        ;
        assert forall|j: int| 0 <= j < 32 implies #[trigger] bit32(result, j) == (j < num
            && buffer_bit(buffer@, first + j)) by {
            lemma_word_bits(b0, b1, b2, b3, j as u32);
        }
        result
    } else {
        let mut result: u32 = 0;
        let mut i: usize = first;
        assert forall|j: int| 0 <= j < 32 implies !#[trigger] bit32(result, j) by {
            lemma_zero_bit32(j as u32);
        }
        while i < first + num
            invariant
                num <= 32,
                first + num <= usize::MAX,
                first + num <= 8 * buffer@.len(),
                first <= i <= first + num,
                forall|j: int|
                    0 <= j < 32 ==> #[trigger] bit32(result, j) == (j < i - first && buffer_bit(
                        buffer@,
                        first + j,
                    )),
            decreases first + num - i,
        {
            let byte = buffer[i / 8];
            let shift: u32 = (i - first) as u32;
            let ghost before = result;
            let set = ((byte >> ((i % 8) as u8)) & 1) == 1;
            assert(set == buffer_bit(buffer@, i as int));
            if set {
                result |= 1u32 << shift;
            }
            assert forall|j: int| 0 <= j < 32 implies #[trigger] bit32(result, j) == (j < i + 1
                - first && buffer_bit(buffer@, first + j)) by {
                assert(bit32(before, j) == (j < i - first && buffer_bit(buffer@, first + j)));
                if set {
                    lemma_or_bit32(before, shift, j as u32);
                }
            }
            i += 1;
        }
        result
    }
}

/// Stores the low `num` bits of `value` in `buffer`, starting at bit
/// `first`: bit `first + j` of the buffer becomes bit `j` of `value`, and
/// every other bit of the buffer stays as it was.
#[inline]
pub fn buf_set_u32(buffer: &mut [u8], first: usize, num: usize, value: u32)
    requires
        num <= 32,
        first + num <= usize::MAX,
        first + num <= 8 * old(buffer)@.len(),
    ensures
        final(buffer)@.len() == old(buffer)@.len(),
        forall|i: int|
            0 <= i < 8 * old(buffer)@.len() ==> #[trigger] buffer_bit(final(buffer)@, i) == (if first
                <= i < first + num {
                bit32(value, i - first)
            } else {
                buffer_bit(old(buffer)@, i)
            }),
{
    if num == 32 && first == 0 {
        buffer[0] = #[verifier::truncate] (((value >> 0) & 0xff) as u8);
        buffer[1] = #[verifier::truncate] (((value >> 8) & 0xff) as u8);
        buffer[2] = #[verifier::truncate] (((value >> 16) & 0xff) as u8);
        buffer[3] = #[verifier::truncate] (((value >> 24) & 0xff) as u8);
        assert forall|i: int| 0 <= i < 8 * old(buffer)@.len() implies #[trigger] buffer_bit(
            buffer@,
            i,
        ) == (if first <= i < first + num {
            bit32(value, i - first)
        } else {
            buffer_bit(old(buffer)@, i)
        }) by {
            if i < 32 {
                lemma_byte_bits(value, (i / 8) as u32, (i % 8) as u8);
            }
        }
    } else {
        let mut i: usize = first;
        while i < first + num
            invariant
                num <= 32,
                first + num <= usize::MAX,
                first + num <= 8 * buffer@.len(),
                buffer@.len() == old(buffer)@.len(),
                first <= i <= first + num,
                forall|p: int|
                    0 <= p < 8 * buffer@.len() ==> #[trigger] buffer_bit(buffer@, p) == (if first
                        <= p < i {
                        bit32(value, p - first)
                    } else {
                        buffer_bit(old(buffer)@, p)
                    }),
            decreases first + num - i,
        {
            let ghost before = buffer@;
            let at: usize = i / 8;
            let k: u8 = (i % 8) as u8;
            let byte = buffer[at];
            if (value >> ((i - first) as u32)) & 1 == 1 {
                buffer[at] = byte | (1u8 << k);
            } else {
                buffer[at] = byte & !(1u8 << k);
            }
            assert forall|p: int| 0 <= p < 8 * buffer@.len() implies #[trigger] buffer_bit(
                buffer@,
                p,
            ) == (if first <= p < i + 1 {
                bit32(value, p - first)
            } else {
                buffer_bit(old(buffer)@, p)
            }) by {
                assert(buffer_bit(before, p) == (if first <= p < i {
                    bit32(value, p - first)
                } else {
                    buffer_bit(old(buffer)@, p)
                }));
                if p / 8 == at as int {
                    lemma_or_bit8(byte, k, (p % 8) as u8);
                    lemma_clear_bit8(byte, k, (p % 8) as u8);
                }
            }
            i += 1;
        }
    }
}

/// The 64-bit number made of eight bytes, `b[0]` the least significant.
pub open spec fn word64(b: Seq<u8>) -> u64 {
    (b[0] as int + 0x100 * (b[1] as int) + 0x1_0000 * (b[2] as int) + 0x100_0000 * (b[3] as int)
        + 0x1_0000_0000 * (b[4] as int) + 0x100_0000_0000 * (b[5] as int) + 0x1_0000_0000_0000 * (
    b[6] as int) + 0x100_0000_0000_0000 * (b[7] as int)) as u64
}

/// The little-endian 64-bit number in the first eight bytes of `buf`.
#[inline]
pub fn le_to_h_u64(buf: &[u8]) -> (value: u64)
    requires
        buf@.len() >= 8,
    ensures
        value == word64(buf@),
{
    let b0 = buf[0];
    let b1 = buf[1];
    let b2 = buf[2];
    let b3 = buf[3];
    let b4 = buf[4];
    let b5 = buf[5];
    let b6 = buf[6];
    let b7 = buf[7];
    assert((b0 as u64) << 0 | (b1 as u64) << 8 | (b2 as u64) << 16 | (b3 as u64) << 24 | (b4 as u64)
        << 32 | (b5 as u64) << 40 | (b6 as u64) << 48 | (b7 as u64) << 56 == (b0 as u64) + 0x100
        * (b1 as u64) + 0x1_0000 * (b2 as u64) + 0x100_0000 * (b3 as u64) + 0x1_0000_0000 * (
    b4 as u64) + 0x100_0000_0000 * (b5 as u64) + 0x1_0000_0000_0000 * (b6 as u64)
        + 0x100_0000_0000_0000 * (b7 as u64)) by (bit_vector);
    (b0 as u64) << 0 | (b1 as u64) << 8 | (b2 as u64) << 16 | (b3 as u64) << 24 | (b4 as u64) << 32
        | (b5 as u64) << 40 | (b6 as u64) << 48 | (b7 as u64) << 56
}

/// The little-endian 32-bit number in the first four bytes of `buf`.
#[inline]
pub fn le_to_h_u32(buf: &[u8]) -> (value: u32)
    requires
        buf@.len() >= 4,
    ensures
        value == word32(buf@[0], buf@[1], buf@[2], buf@[3]),
{
    crate::link::util::buf_read_u32(buf, 0, true)
}

/// The little-endian 16-bit number in the first two bytes of `buf`.
#[inline]
pub fn le_to_h_u16(buf: &[u8]) -> (value: u16)
    requires
        buf@.len() >= 2,
    ensures
        value == word16(buf@[0], buf@[1]),
{
    crate::link::util::buf_read_u16(buf, 0, true)
}

/// The big-endian 64-bit number in the first eight bytes of `buf`.
#[inline]
pub fn be_to_h_u64(buf: &[u8]) -> (value: u64)
    requires
        buf@.len() >= 8,
    ensures
        value == word64(buf@.subrange(0, 8).reverse()),
{
    let b0 = buf[7];
    let b1 = buf[6];
    let b2 = buf[5];
    let b3 = buf[4];
    let b4 = buf[3];
    let b5 = buf[2];
    let b6 = buf[1];
    let b7 = buf[0];
    assert((b0 as u64) << 0 | (b1 as u64) << 8 | (b2 as u64) << 16 | (b3 as u64) << 24 | (b4 as u64)
        << 32 | (b5 as u64) << 40 | (b6 as u64) << 48 | (b7 as u64) << 56 == (b0 as u64) + 0x100
        * (b1 as u64) + 0x1_0000 * (b2 as u64) + 0x100_0000 * (b3 as u64) + 0x1_0000_0000 * (
    b4 as u64) + 0x100_0000_0000 * (b5 as u64) + 0x1_0000_0000_0000 * (b6 as u64)
        + 0x100_0000_0000_0000 * (b7 as u64)) by (bit_vector);
    (b0 as u64) << 0 | (b1 as u64) << 8 | (b2 as u64) << 16 | (b3 as u64) << 24 | (b4 as u64) << 32
        | (b5 as u64) << 40 | (b6 as u64) << 48 | (b7 as u64) << 56
}

/// The low 32 bits of the big-endian 64-bit number in the first eight bytes
/// of `buf`: the bytes at 4 to 7, the last one the least significant.
#[inline]
pub fn be_to_h_u32(buf: &[u8]) -> (value: u32)
    requires
        buf@.len() >= 8,
    ensures
        value == word32(buf@[7], buf@[6], buf@[5], buf@[4]),
{
    crate::link::util::buf_read_u32(buf, 4, false)
}

/// The low 16 bits of the big-endian 64-bit number in the first eight bytes
/// of `buf`: the bytes at 6 and 7, the last one the least significant.
#[inline]
pub fn be_to_h_u16(buf: &[u8]) -> (value: u16)
    requires
        buf@.len() >= 8,
    ensures
        value == word16(buf@[7], buf@[6]),
{
    crate::link::util::buf_read_u16(buf, 6, false)
}

} // verus!
