//! Bounds-checked big-endian scalar decoding.
//!
//! Every multi-byte integer in an `sfnt` container is stored big-endian.
//! The spec functions below give the mathematical value of the integer
//! stored at a byte offset of a sequence; the executable functions return
//! exactly those values.

use vstd::prelude::*;

verus! {

/// The big-endian u16 stored at byte offset `i` of `s`.
pub open spec fn spec_be_u16_at(s: Seq<u8>, i: int) -> u16
    recommends
        0 <= i,
        i + 2 <= s.len(),
{
    (s[i] as int * 0x100 + s[i + 1] as int) as u16
}

/// The big-endian u32 stored at byte offset `i` of `s`.
pub open spec fn spec_be_u32_at(s: Seq<u8>, i: int) -> u32
    recommends
        0 <= i,
        i + 4 <= s.len(),
{
    (s[i] as int * 0x1000000 + s[i + 1] as int * 0x10000 + s[i + 2] as int * 0x100 + s[i
        + 3] as int) as u32
}

/// The big-endian 24-bit unsigned integer stored at byte offset `i` of `s`.
pub open spec fn spec_be_u24_at(s: Seq<u8>, i: int) -> u32
    recommends
        0 <= i,
        i + 3 <= s.len(),
{
    (s[i] as int * 0x10000 + s[i + 1] as int * 0x100 + s[i + 2] as int) as u32
}

/// The big-endian u64 stored at byte offset `i` of `s`.
pub open spec fn spec_be_u64_at(s: Seq<u8>, i: int) -> u64
    recommends
        0 <= i,
        i + 8 <= s.len(),
{
    (spec_be_u32_at(s, i) as int * 0x100000000 + spec_be_u32_at(s, i + 4) as int) as u64
}

/// The big-endian i16 stored at byte offset `i` of `s` (two's complement).
pub open spec fn spec_be_i16_at(s: Seq<u8>, i: int) -> i16 {
    spec_be_u16_at(s, i) as i16
}

/// The big-endian i32 stored at byte offset `i` of `s` (two's complement).
pub open spec fn spec_be_i32_at(s: Seq<u8>, i: int) -> i32 {
    spec_be_u32_at(s, i) as i32
}

/// The big-endian i64 stored at byte offset `i` of `s` (two's complement).
pub open spec fn spec_be_i64_at(s: Seq<u8>, i: int) -> i64 {
    spec_be_u64_at(s, i) as i64
}

/// Reads the first byte.
pub fn be_u8(buf: &[u8]) -> (r: u8)
    requires
        buf@.len() >= 1,
    ensures
        r == buf@[0],
{
    buf[0]
}

/// Reads the first byte as a signed value.
pub fn be_i8(buf: &[u8]) -> (r: i8)
    requires
        buf@.len() >= 1,
    ensures
        r == buf@[0] as i8,
{
    buf[0] as i8
}

/// Decodes the big-endian u16 at the start of `buf`.
pub fn be_u16(buf: &[u8]) -> (r: u16)
    requires
        buf@.len() >= 2,
    ensures
        r == spec_be_u16_at(buf@, 0),
{
    read_u16_at(buf, 0)
}

/// Decodes the big-endian i16 at the start of `buf`.
pub fn be_i16(buf: &[u8]) -> (r: i16)
    requires
        buf@.len() >= 2,
    ensures
        r == spec_be_i16_at(buf@, 0),
{
    be_u16(buf) as i16
}

/// Decodes the big-endian u32 at the start of `buf`.
pub fn be_u32(buf: &[u8]) -> (r: u32)
    requires
        buf@.len() >= 4,
    ensures
        r == spec_be_u32_at(buf@, 0),
{
    read_u32_at(buf, 0)
}

/// Decodes the big-endian i32 at the start of `buf`.
pub fn be_i32(buf: &[u8]) -> (r: i32)
    requires
        buf@.len() >= 4,
    ensures
        r == spec_be_i32_at(buf@, 0),
{
    be_u32(buf) as i32
}

/// Copies the first four bytes of `buf` into an array.
pub fn be_u8_4(buf: &[u8]) -> (r: [u8; 4])
    requires
        buf@.len() >= 4,
    ensures
        r@ == buf@.subrange(0, 4),
{
    let r = [buf[0], buf[1], buf[2], buf[3]];
    proof {
        assert(r@ =~= buf@.subrange(0, 4));
    }
    r
}

/// Decodes the big-endian u16 at byte offset `i` of `buf`.
pub fn read_u16_at(buf: &[u8], i: usize) -> (r: u16)
    requires
        i + 2 <= buf@.len(),
    ensures
        r == spec_be_u16_at(buf@, i as int),
{
    (buf[i] as u16) * 0x100 + (buf[i + 1] as u16)
}

/// Decodes the big-endian i16 at byte offset `i` of `buf`.
pub fn read_i16_at(buf: &[u8], i: usize) -> (r: i16)
    requires
        i + 2 <= buf@.len(),
    ensures
        r == spec_be_i16_at(buf@, i as int),
{
    read_u16_at(buf, i) as i16
}

/// Decodes the big-endian u24 at byte offset `i` of `buf`.
pub fn read_u24_at(buf: &[u8], i: usize) -> (r: u32)
    requires
        i + 3 <= buf@.len(),
    ensures
        r == spec_be_u24_at(buf@, i as int),
{
    (buf[i] as u32) * 0x10000 + (buf[i + 1] as u32) * 0x100 + (buf[i + 2] as u32)
}

/// Decodes the big-endian u32 at byte offset `i` of `buf`.
pub fn read_u32_at(buf: &[u8], i: usize) -> (r: u32)
    requires
        i + 4 <= buf@.len(),
    ensures
        r == spec_be_u32_at(buf@, i as int),
{
    (buf[i] as u32) * 0x1000000 + (buf[i + 1] as u32) * 0x10000 + (buf[i + 2] as u32) * 0x100 + (
    buf[i + 3] as u32)
}

/// Decodes the big-endian i32 at byte offset `i` of `buf`.
pub fn read_i32_at(buf: &[u8], i: usize) -> (r: i32)
    requires
        i + 4 <= buf@.len(),
    ensures
        r == spec_be_i32_at(buf@, i as int),
{
    read_u32_at(buf, i) as i32
}

/// Decodes the big-endian u64 at byte offset `i` of `buf`.
pub fn read_u64_at(buf: &[u8], i: usize) -> (r: u64)
    requires
        i + 8 <= buf@.len(),
    ensures
        r == spec_be_u64_at(buf@, i as int),
{
    let _n: usize = buf.len();
    let hi = read_u32_at(buf, i);
    let lo = read_u32_at(buf, i + 4);
    (hi as u64) * 0x100000000 + (lo as u64)
}

/// Decodes the big-endian i64 at byte offset `i` of `buf`.
pub fn read_i64_at(buf: &[u8], i: usize) -> (r: i64)
    requires
        i + 8 <= buf@.len(),
    ensures
        r == spec_be_i64_at(buf@, i as int),
{
    read_u64_at(buf, i) as i64
}

} // verus!
