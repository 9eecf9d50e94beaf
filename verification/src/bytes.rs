//! Little-endian and network-order fields of byte images.
use vstd::prelude::*;

verus! {

/// The 16-bit little-endian value at `s[at..at + 2]`.
pub open spec fn read_le16(s: Seq<u8>, at: int) -> int {
    s[at] + s[at + 1] * 0x100
}

/// The 16-bit network-order value at `s[at..at + 2]`.
pub open spec fn read_be16(s: Seq<u8>, at: int) -> int {
    s[at] * 0x100 + s[at + 1]
}

/// The 32-bit little-endian value at `s[at..at + 4]`.
pub open spec fn read_le32(s: Seq<u8>, at: int) -> int {
    read_le16(s, at) + read_le16(s, at + 2) * 0x1_0000
}

/// The 64-bit little-endian value at `s[at..at + 8]`.
pub open spec fn read_le64(s: Seq<u8>, at: int) -> int {
    read_le32(s, at) + read_le32(s, at + 4) * 0x1_0000_0000
}

/// Read the little-endian `u16` at `s[at..at + 2]`.
pub fn read_u16_le(s: &[u8], at: usize) -> (r: u16)
    requires
        at + 2 <= s@.len(),
    ensures
        r == read_le16(s@, at as int),
{
    let lo = s[at];
    let hi = s[at + 1];
    let r = (lo as u16) | ((hi as u16) << 8u16);
    assert(r == lo + hi * 0x100) by (bit_vector)
        requires
            r == (lo as u16) | ((hi as u16) << 8u16),
    ;
    r
}

/// Read the network-order `u16` at `s[at..at + 2]`.
pub fn read_u16_be(s: &[u8], at: usize) -> (r: u16)
    requires
        at + 2 <= s@.len(),
    ensures
        r == read_be16(s@, at as int),
{
    let hi = s[at];
    let lo = s[at + 1];
    let r = (lo as u16) | ((hi as u16) << 8u16);
    assert(r == hi * 0x100 + lo) by (bit_vector)
        requires
            r == (lo as u16) | ((hi as u16) << 8u16),
    ;
    r
}

/// Read the little-endian `u32` at `s[at..at + 4]`.
pub fn read_u32_le(s: &[u8], at: usize) -> (r: u32)
    requires
        at + 4 <= s@.len(),
    ensures
        r == read_le32(s@, at as int),
{
    let len = s.len();
    assert(at + 4 <= len);
    let lo = read_u16_le(s, at);
    let hi = read_u16_le(s, at + 2);
    let r = (lo as u32) | ((hi as u32) << 16u32);
    assert(r == lo + hi * 0x1_0000) by (bit_vector)
        requires
            r == (lo as u32) | ((hi as u32) << 16u32),
    ;
    r
}

/// Read the little-endian `u64` at `s[at..at + 8]`.
pub fn read_u64_le(s: &[u8], at: usize) -> (r: u64)
    requires
        at + 8 <= s@.len(),
    ensures
        r == read_le64(s@, at as int),
{
    let len = s.len();
    assert(at + 8 <= len);
    let lo = read_u32_le(s, at);
    let hi = read_u32_le(s, at + 4);
    let r = (lo as u64) | ((hi as u64) << 32u64);
    assert(r == lo + hi * 0x1_0000_0000) by (bit_vector)
        requires
            r == (lo as u64) | ((hi as u64) << 32u64),
    ;
    r
}

} // verus!
