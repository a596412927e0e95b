//! The scalar value types of the font format and their decode
//! implementations: fixed-point units, offsets, tags and placeholders.
//!
//! Fixed-point types decode their underlying integer representation
//! unchanged; equality and ordering are on the raw integer encoding.

use crate::decode::parse::{
    be_u8_4, read_i16_at, read_i32_at, read_i64_at, read_u16_at, read_u24_at, read_u32_at,
    read_u64_at, spec_be_i16_at, spec_be_i32_at, spec_be_i64_at, spec_be_u16_at, spec_be_u24_at,
    spec_be_u32_at, spec_be_u64_at,
};
use crate::decode::{Error, Primitive};
use core::marker::PhantomData;
use vstd::prelude::*;

verus! {

/// A 32-bit signed fixed-point number (16.16); the raw encoding divided by
/// 2^16 gives the represented value.
#[derive(Debug, Copy, Clone, Hash, PartialEq, Eq, Structural)]
pub struct Fixed(pub i32);

/// A signed quantity in the font's internal design units.
#[derive(Debug, Copy, Clone, Hash, PartialEq, Eq, Structural)]
pub struct FWord(pub i16);

/// A 16-bit signed fixed-point number (2.14); the raw encoding divided by
/// 2^14 gives the represented value.
#[derive(Debug, Copy, Clone, Hash, PartialEq, Eq, Structural)]
pub struct F2Dot14(pub i16);

/// An unsigned quantity in the font's internal design units.
#[derive(Debug, Copy, Clone, Hash, PartialEq, Eq, Structural)]
pub struct UFWord(pub u16);

/// A raw 16-bit byte offset, relative to a base its table declares.
#[derive(Debug, Copy, Clone, Hash, PartialEq, Eq, Structural)]
pub struct Offset16(pub u16);

/// A raw 32-bit byte offset, relative to a base its table declares.
#[derive(Debug, Copy, Clone, Hash, PartialEq, Eq, Structural)]
pub struct Offset32(pub u32);

/// Four raw bytes naming a table, script, language system or feature;
/// compared by byte equality, never interpreted numerically.
#[derive(Debug, Copy, Clone, Hash)]
pub struct Tag(pub [u8; 4]);

impl View for Tag {
    type V = Seq<u8>;

    open spec fn view(&self) -> Seq<u8> {
        self.0@
    }
}

impl PartialEq for Tag {
    fn eq(&self, other: &Tag) -> (r: bool) {
        let r = self.0[0] == other.0[0] && self.0[1] == other.0[1] && self.0[2] == other.0[2]
            && self.0[3] == other.0[3];
        proof {
            if r {
                assert(self.0@ =~= other.0@);
            }
        }
        r
    }
}

impl vstd::std_specs::cmp::PartialEqSpecImpl for Tag {
    open spec fn obeys_eq_spec() -> bool {
        true
    }

    open spec fn eq_spec(&self, other: &Tag) -> bool {
        self.0@ == other.0@
    }
}

impl Eq for Tag {

}

/// A 24-bit big-endian unsigned integer.
#[derive(Debug, Copy, Clone, Hash, PartialEq, Eq, Structural)]
pub struct U24(pub u32);

/// A placeholder for reserved or legacy fields: decoding skips the width of
/// `T` without interpreting the bytes and always succeeds.
#[derive(Debug)]
pub struct Ignored<T> {
    _phantom: PhantomData<T>,
}

impl Primitive for u8 {
    open spec fn spec_size() -> nat {
        1
    }

    open spec fn spec_parses(s: Seq<u8>, v: Self) -> bool {
        v == s[0]
    }

    open spec fn spec_parse_err(s: Seq<u8>) -> Option<Error> {
        None
    }

    fn size() -> usize {
        1
    }

    fn parse(buffer: &[u8]) -> Result<Self, Error> {
        Ok(buffer[0])
    }
}

impl Primitive for i8 {
    open spec fn spec_size() -> nat {
        1
    }

    open spec fn spec_parses(s: Seq<u8>, v: Self) -> bool {
        v == s[0] as i8
    }

    open spec fn spec_parse_err(s: Seq<u8>) -> Option<Error> {
        None
    }

    fn size() -> usize {
        1
    }

    fn parse(buffer: &[u8]) -> Result<Self, Error> {
        Ok(buffer[0] as i8)
    }
}

impl Primitive for u16 {
    open spec fn spec_size() -> nat {
        2
    }

    open spec fn spec_parses(s: Seq<u8>, v: Self) -> bool {
        v == spec_be_u16_at(s, 0)
    }

    open spec fn spec_parse_err(s: Seq<u8>) -> Option<Error> {
        None
    }

    fn size() -> usize {
        2
    }

    fn parse(buffer: &[u8]) -> Result<Self, Error> {
        Ok(read_u16_at(buffer, 0))
    }
}

impl Primitive for i16 {
    open spec fn spec_size() -> nat {
        2
    }

    open spec fn spec_parses(s: Seq<u8>, v: Self) -> bool {
        v == spec_be_i16_at(s, 0)
    }

    open spec fn spec_parse_err(s: Seq<u8>) -> Option<Error> {
        None
    }

    fn size() -> usize {
        2
    }

    fn parse(buffer: &[u8]) -> Result<Self, Error> {
        Ok(read_i16_at(buffer, 0))
    }
}

impl Primitive for u32 {
    open spec fn spec_size() -> nat {
        4
    }

    open spec fn spec_parses(s: Seq<u8>, v: Self) -> bool {
        v == spec_be_u32_at(s, 0)
    }

    open spec fn spec_parse_err(s: Seq<u8>) -> Option<Error> {
        None
    }

    fn size() -> usize {
        4
    }

    fn parse(buffer: &[u8]) -> Result<Self, Error> {
        Ok(read_u32_at(buffer, 0))
    }
}

impl Primitive for i32 {
    open spec fn spec_size() -> nat {
        4
    }

    open spec fn spec_parses(s: Seq<u8>, v: Self) -> bool {
        v == spec_be_i32_at(s, 0)
    }

    open spec fn spec_parse_err(s: Seq<u8>) -> Option<Error> {
        None
    }

    fn size() -> usize {
        4
    }

    fn parse(buffer: &[u8]) -> Result<Self, Error> {
        Ok(read_i32_at(buffer, 0))
    }
}

impl Primitive for u64 {
    open spec fn spec_size() -> nat {
        8
    }

    open spec fn spec_parses(s: Seq<u8>, v: Self) -> bool {
        v == spec_be_u64_at(s, 0)
    }

    open spec fn spec_parse_err(s: Seq<u8>) -> Option<Error> {
        None
    }

    fn size() -> usize {
        8
    }

    fn parse(buffer: &[u8]) -> Result<Self, Error> {
        Ok(read_u64_at(buffer, 0))
    }
}

impl Primitive for i64 {
    open spec fn spec_size() -> nat {
        8
    }

    open spec fn spec_parses(s: Seq<u8>, v: Self) -> bool {
        v == spec_be_i64_at(s, 0)
    }

    open spec fn spec_parse_err(s: Seq<u8>) -> Option<Error> {
        None
    }

    fn size() -> usize {
        8
    }

    fn parse(buffer: &[u8]) -> Result<Self, Error> {
        Ok(read_i64_at(buffer, 0))
    }
}

impl Primitive for Fixed {
    open spec fn spec_size() -> nat {
        4
    }

    open spec fn spec_parses(s: Seq<u8>, v: Self) -> bool {
        v == Fixed(spec_be_i32_at(s, 0))
    }

    open spec fn spec_parse_err(s: Seq<u8>) -> Option<Error> {
        None
    }

    fn size() -> usize {
        4
    }

    fn parse(buffer: &[u8]) -> Result<Self, Error> {
        Ok(Fixed(read_i32_at(buffer, 0)))
    }
}

impl Primitive for FWord {
    open spec fn spec_size() -> nat {
        2
    }

    open spec fn spec_parses(s: Seq<u8>, v: Self) -> bool {
        v == FWord(spec_be_i16_at(s, 0))
    }

    open spec fn spec_parse_err(s: Seq<u8>) -> Option<Error> {
        None
    }

    fn size() -> usize {
        2
    }

    fn parse(buffer: &[u8]) -> Result<Self, Error> {
        Ok(FWord(read_i16_at(buffer, 0)))
    }
}

impl Primitive for F2Dot14 {
    open spec fn spec_size() -> nat {
        2
    }

    open spec fn spec_parses(s: Seq<u8>, v: Self) -> bool {
        v == F2Dot14(spec_be_i16_at(s, 0))
    }

    open spec fn spec_parse_err(s: Seq<u8>) -> Option<Error> {
        None
    }

    fn size() -> usize {
        2
    }

    fn parse(buffer: &[u8]) -> Result<Self, Error> {
        Ok(F2Dot14(read_i16_at(buffer, 0)))
    }
}

impl Primitive for UFWord {
    open spec fn spec_size() -> nat {
        2
    }

    open spec fn spec_parses(s: Seq<u8>, v: Self) -> bool {
        v == UFWord(spec_be_u16_at(s, 0))
    }

    open spec fn spec_parse_err(s: Seq<u8>) -> Option<Error> {
        None
    }

    fn size() -> usize {
        2
    }

    fn parse(buffer: &[u8]) -> Result<Self, Error> {
        Ok(UFWord(read_u16_at(buffer, 0)))
    }
}

impl Primitive for Offset16 {
    open spec fn spec_size() -> nat {
        2
    }

    open spec fn spec_parses(s: Seq<u8>, v: Self) -> bool {
        v == Offset16(spec_be_u16_at(s, 0))
    }

    open spec fn spec_parse_err(s: Seq<u8>) -> Option<Error> {
        None
    }

    fn size() -> usize {
        2
    }

    fn parse(buffer: &[u8]) -> Result<Self, Error> {
        Ok(Offset16(read_u16_at(buffer, 0)))
    }
}

impl Primitive for Offset32 {
    open spec fn spec_size() -> nat {
        4
    }

    open spec fn spec_parses(s: Seq<u8>, v: Self) -> bool {
        v == Offset32(spec_be_u32_at(s, 0))
    }

    open spec fn spec_parse_err(s: Seq<u8>) -> Option<Error> {
        None
    }

    fn size() -> usize {
        4
    }

    fn parse(buffer: &[u8]) -> Result<Self, Error> {
        Ok(Offset32(read_u32_at(buffer, 0)))
    }
}

impl Primitive for Tag {
    open spec fn spec_size() -> nat {
        4
    }

    open spec fn spec_parses(s: Seq<u8>, v: Self) -> bool {
        v@ == s.subrange(0, 4)
    }

    open spec fn spec_parse_err(s: Seq<u8>) -> Option<Error> {
        None
    }

    fn size() -> usize {
        4
    }

    fn parse(buffer: &[u8]) -> Result<Self, Error> {
        Ok(Tag(be_u8_4(buffer)))
    }
}

impl Primitive for U24 {
    open spec fn spec_size() -> nat {
        3
    }

    open spec fn spec_parses(s: Seq<u8>, v: Self) -> bool {
        v == U24(spec_be_u24_at(s, 0))
    }

    open spec fn spec_parse_err(s: Seq<u8>) -> Option<Error> {
        None
    }

    fn size() -> usize {
        3
    }

    fn parse(buffer: &[u8]) -> Result<Self, Error> {
        Ok(U24(read_u24_at(buffer, 0)))
    }
}

impl<T: Primitive> Primitive for Ignored<T> {
    open spec fn spec_size() -> nat {
        T::spec_size()
    }

    open spec fn spec_parses(s: Seq<u8>, v: Self) -> bool {
        true
    }

    open spec fn spec_parse_err(s: Seq<u8>) -> Option<Error> {
        None
    }

    fn size() -> usize {
        T::size()
    }

    fn parse(buffer: &[u8]) -> Result<Self, Error> {
        Ok(Ignored { _phantom: PhantomData })
    }
}

} // verus!
