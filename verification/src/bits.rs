//! Bit rotations and the little-endian byte view of an integer, with the
//! spec functions that the other modules state their contracts over.

use vstd::prelude::*;

verus! {

/// Rotation of a 32-bit word to the left by `n` bits (`n < 32`).
pub open spec fn rotl32(x: u32, n: u32) -> u32 {
    if n == 0 {
        x
    } else {
        ((x << n) | (x >> ((32 - n) as u32))) as u32
    }
}

/// Rotation of a 64-bit word to the left by `n` bits (`n < 64`).
pub open spec fn rotl64(x: u64, n: u32) -> u64 {
    if n == 0 {
        x
    } else {
        ((x << n) | (x >> ((64 - n) as u32))) as u64
    }
}

/// Rotation of a 64-bit word to the right by `n` bits (`n < 64`).
pub open spec fn rotr64(x: u64, n: u32) -> u64 {
    if n == 0 {
        x
    } else {
        ((x >> n) | (x << ((64 - n) as u32))) as u64
    }
}

/// Byte `i` (0 = least significant) of the little-endian encoding of `x`.
pub open spec fn le_byte(x: u64, i: int) -> u8 {
    ((x >> ((8 * i) as u64)) & 0xff) as u8
}

pub fn rotate_left_u32(x: u32, n: u32) -> (r: u32)
    requires
        n < 32,
    ensures
        r == rotl32(x, n),
{
    if n == 0 {
        x
    } else {
        (x << n) | (x >> (32 - n))
    }
}

pub fn rotate_left_u64(x: u64, n: u32) -> (r: u64)
    requires
        n < 64,
    ensures
        r == rotl64(x, n),
{
    if n == 0 {
        x
    } else {
        (x << n) | (x >> (64 - n))
    }
}

pub fn rotate_right_u64(x: u64, n: u32) -> (r: u64)
    requires
        n < 64,
    ensures
        r == rotr64(x, n),
{
    if n == 0 {
        x
    } else {
        (x >> n) | (x << (64 - n))
    }
}

/// Right shifts of a 64-bit word by the amounts that the mixers use are
/// divisions by powers of two.
pub proof fn lemma_shr_is_div_u64(x: u64)
    by (bit_vector)
    ensures
        x >> 27u32 == x / 0x800_0000,
        x >> 28u32 == x / 0x1000_0000,
        x >> 29u32 == x / 0x2000_0000,
        x >> 30u32 == x / 0x4000_0000,
        x >> 31u32 == x / 0x8000_0000,
        x >> 32u32 == x / 0x1_0000_0000,
        x >> 33u32 == x / 0x2_0000_0000,
        (x >> 32u32) as u32 as u64 == x >> 32u32,
        x & 0x3F < 64,
        x & 0x3F == x % 64,
{
}

/// Right shifts of a 32-bit word by the amounts that the mixers use are
/// divisions by powers of two, and its low five bits are a rotation amount.
pub proof fn lemma_shr_is_div_u32(x: u32)
    by (bit_vector)
    ensures
        x >> 13u32 == x / 0x2000,
        x >> 15u32 == x / 0x8000,
        x & 0x1F < 32,
        x & 0x1F == x % 32,
        (x & 0x1F) as u8 as u32 == x & 0x1F,
{
}

} // verus!
