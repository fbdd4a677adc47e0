//! Fixed-offset integer fields inside byte buffers.
//!
//! Executable header inspection and footer parsing read little- and
//! big-endian integers at fixed offsets; these helpers state the value
//! of such a field directly over the byte sequence.

use vstd::prelude::*;

verus! {

/// Value of the two-byte little-endian field at offset `i`.
pub open spec fn spec_u16_le_at(s: Seq<u8>, i: int) -> int {
    s[i] + s[i + 1] * 0x100
}

/// Value of the two-byte big-endian field at offset `i`.
pub open spec fn spec_u16_be_at(s: Seq<u8>, i: int) -> int {
    s[i] * 0x100 + s[i + 1]
}

/// Value of the four-byte little-endian field at offset `i`.
pub open spec fn spec_u32_le_at(s: Seq<u8>, i: int) -> int {
    s[i] + s[i + 1] * 0x100 + s[i + 2] * 0x1_0000 + s[i + 3] * 0x100_0000
}

/// Value of the four-byte big-endian field at offset `i`.
pub open spec fn spec_u32_be_at(s: Seq<u8>, i: int) -> int {
    s[i] * 0x100_0000 + s[i + 1] * 0x1_0000 + s[i + 2] * 0x100 + s[i + 3]
}

/// Read the two-byte little-endian field at offset `i`.
pub fn read_u16_le(data: &[u8], i: usize) -> (r: u16)
    requires
        i + 2 <= data@.len(),
    ensures
        r == spec_u16_le_at(data@, i as int),
{
    (data[i] as u16) + (data[i + 1] as u16) * 0x100
}

/// Read the two-byte big-endian field at offset `i`.
pub fn read_u16_be(data: &[u8], i: usize) -> (r: u16)
    requires
        i + 2 <= data@.len(),
    ensures
        r == spec_u16_be_at(data@, i as int),
{
    (data[i] as u16) * 0x100 + (data[i + 1] as u16)
}

/// Read the four-byte little-endian field at offset `i`.
pub fn read_u32_le(data: &[u8], i: usize) -> (r: u32)
    requires
        i + 4 <= data@.len(),
    ensures
        r == spec_u32_le_at(data@, i as int),
{
    (data[i] as u32) + (data[i + 1] as u32) * 0x100 + (data[i + 2] as u32) * 0x1_0000 + (data[i
        + 3] as u32) * 0x100_0000
}

/// Read the four-byte big-endian field at offset `i`.
pub fn read_u32_be(data: &[u8], i: usize) -> (r: u32)
    requires
        i + 4 <= data@.len(),
    ensures
        r == spec_u32_be_at(data@, i as int),
{
    (data[i] as u32) * 0x100_0000 + (data[i + 1] as u32) * 0x1_0000 + (data[i + 2] as u32) * 0x100
        + (data[i + 3] as u32)
}

/// A two-byte field read in the byte order named by `big_endian`.
pub open spec fn spec_u16_at(s: Seq<u8>, i: int, big_endian: bool) -> int {
    if big_endian {
        spec_u16_be_at(s, i)
    } else {
        spec_u16_le_at(s, i)
    }
}

/// A four-byte field read in the byte order named by `big_endian`.
pub open spec fn spec_u32_at(s: Seq<u8>, i: int, big_endian: bool) -> int {
    if big_endian {
        spec_u32_be_at(s, i)
    } else {
        spec_u32_le_at(s, i)
    }
}

/// Read the two-byte field at offset `i` in the given byte order.
pub fn read_u16(data: &[u8], i: usize, big_endian: bool) -> (r: u16)
    requires
        i + 2 <= data@.len(),
    ensures
        r == spec_u16_at(data@, i as int, big_endian),
{
    if big_endian {
        read_u16_be(data, i)
    } else {
        read_u16_le(data, i)
    }
}

/// Read the four-byte field at offset `i` in the given byte order.
pub fn read_u32(data: &[u8], i: usize, big_endian: bool) -> (r: u32)
    requires
        i + 4 <= data@.len(),
    ensures
        r == spec_u32_at(data@, i as int, big_endian),
{
    if big_endian {
        read_u32_be(data, i)
    } else {
        read_u32_le(data, i)
    }
}

} // verus!
