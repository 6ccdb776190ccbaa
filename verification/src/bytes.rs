//! Big-endian field extraction from byte buffers.

use vstd::prelude::*;
use vstd::slice::slice_subrange;
use vstd::slice::slice_to_vec;

verus! {

/// The 16-bit number whose most significant byte is `hi`.
pub open spec fn be16(hi: u8, lo: u8) -> u16 {
    (hi as int * 0x100 + lo as int) as u16
}

/// The 32-bit number made of four bytes, most significant first.
pub open spec fn be32(b0: u8, b1: u8, b2: u8, b3: u8) -> u32 {
    (b0 as int * 0x100_0000 + b1 as int * 0x1_0000 + b2 as int * 0x100 + b3 as int) as u32
}

/// The big-endian 16-bit field that starts at offset `at` of `b`.
pub open spec fn word16_at(b: Seq<u8>, at: int) -> u16
    recommends
        0 <= at,
        at + 2 <= b.len(),
{
    be16(b[at], b[at + 1])
}

/// The big-endian 32-bit field that starts at offset `at` of `b`.
pub open spec fn word32_at(b: Seq<u8>, at: int) -> u32
    recommends
        0 <= at,
        at + 4 <= b.len(),
{
    be32(b[at], b[at + 1], b[at + 2], b[at + 3])
}

/// The upper four bits of a byte.
pub open spec fn high_nibble(b: u8) -> u8 {
    b / 16
}

/// The lower four bits of a byte.
pub open spec fn low_nibble(b: u8) -> u8 {
    b % 16
}

/// Reads the big-endian 16-bit field at offset `at`.
pub(crate) fn read_be16(b: &[u8], at: usize) -> (v: u16)
    requires
        at + 2 <= b@.len(),
    ensures
        v == word16_at(b@, at as int),
{
    let hi: u16 = b[at] as u16;
    let lo: u16 = b[at + 1] as u16;
    hi * 0x100 + lo
}

/// Reads the big-endian 32-bit field at offset `at`.
pub(crate) fn read_be32(b: &[u8], at: usize) -> (v: u32)
    requires
        at + 4 <= b@.len(),
    ensures
        v == word32_at(b@, at as int),
{
    let b0: u32 = b[at] as u32;
    let b1: u32 = b[at + 1] as u32;
    let b2: u32 = b[at + 2] as u32;
    let b3: u32 = b[at + 3] as u32;
    b0 * 0x100_0000 + b1 * 0x1_0000 + b2 * 0x100 + b3
}

/// Copies the bytes `from..to` of `b` into a buffer of their own.
pub(crate) fn copy_range(b: &[u8], from: usize, to: usize) -> (v: Vec<u8>)
    requires
        from <= to <= b@.len(),
    ensures
        v@ == b@.subrange(from as int, to as int),
{
    slice_to_vec(slice_subrange(b, from, to))
}

} // verus!
