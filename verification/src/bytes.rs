//! Integers as the bytes they occupy in memory.

use vstd::endian::endianness;
use vstd::endian::Endian;
use vstd::prelude::*;

verus! {

/// The value of the byte place `place`, counted from the least significant.
pub open spec fn place_weight(place: int) -> int {
    if place <= 0 {
        1
    } else if place == 1 {
        0x100
    } else if place == 2 {
        0x1_0000
    } else {
        0x100_0000
    }
}

/// Byte `k`, in memory order, of a `width`-byte unsigned integer stored in
/// byte order `order`.
pub open spec fn byte_in_memory(value: int, width: int, k: int, order: Endian) -> u8 {
    let place = match order {
        Endian::Little => k,
        Endian::Big => width - 1 - k,
    };
    ((value / place_weight(place)) % 0x100) as u8
}

/// The bytes of a sequence of 16-bit integers laid out one after another.
pub open spec fn u16s_in_memory(values: Seq<u16>, order: Endian) -> Seq<u8> {
    Seq::new(2 * values.len(), |i: int| byte_in_memory(values[i / 2] as int, 2, i % 2, order))
}

/// The bytes of a sequence of 32-bit integers laid out one after another.
pub open spec fn u32s_in_memory(values: Seq<u32>, order: Endian) -> Seq<u8> {
    Seq::new(4 * values.len(), |i: int| byte_in_memory(values[i / 4] as int, 4, i % 4, order))
}

/// Calls `bytemuck::cast_slice` to view 16-bit integers as bytes.
///
/// Trusted: the result is the memory of the slice, so it holds two bytes for
/// each element, in element order and in the byte order of the host. The cast
/// cannot fail, because a byte has no alignment demand and any byte count is a
/// whole number of bytes.
#[verifier::external_body]
pub(crate) fn u16s_as_bytes(values: &[u16]) -> (bytes: &[u8])
    ensures
        bytes@ == u16s_in_memory(values@, endianness()),
{
    bytemuck::cast_slice(values)
}

/// Calls `bytemuck::cast_slice` to view 32-bit integers as bytes.
///
/// Trusted: the result is the memory of the slice, so it holds four bytes for
/// each element, in element order and in the byte order of the host. The cast
/// cannot fail, because a byte has no alignment demand and any byte count is a
/// whole number of bytes.
#[verifier::external_body]
pub(crate) fn u32s_as_bytes(values: &[u32]) -> (bytes: &[u8])
    ensures
        bytes@ == u32s_in_memory(values@, endianness()),
{
    bytemuck::cast_slice(values)
}

/// Copies 16-bit integers into a byte buffer, as they lie in memory.
pub fn u16s_to_bytes(values: &[u16]) -> (bytes: Vec<u8>)
    ensures
        bytes@ == u16s_in_memory(values@, endianness()),
        bytes@.len() == 2 * values@.len(),
{
    vstd::slice::slice_to_vec(u16s_as_bytes(values))
}

/// Copies 32-bit integers into a byte buffer, as they lie in memory.
pub fn u32s_to_bytes(values: &[u32]) -> (bytes: Vec<u8>)
    ensures
        bytes@ == u32s_in_memory(values@, endianness()),
        bytes@.len() == 4 * values@.len(),
{
    vstd::slice::slice_to_vec(u32s_as_bytes(values))
}

} // verus!
