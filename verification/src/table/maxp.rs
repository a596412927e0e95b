//! The `maxp` table: glyph count and memory-profile maxima.
//!
//! Two on-disk forms exist, told apart by a 32-bit version discriminant:
//! `0x00005000` (the legacy two-field form, glyph count only) and
//! `0x00010000` (the full form).  Any other version is invalid data.

use crate::decode::parse::{spec_be_u16_at, spec_be_u32_at};
use crate::decode::primitives::Tag;
use crate::decode::{Error, ReadPrimitive, SizedTable, Table};
use crate::table::TaggedTable;
use vstd::prelude::*;

verus! {

/// A parsed `maxp` table, one variant per on-disk version.
#[derive(Debug, Clone, Copy, PartialEq, Eq, Structural)]
pub enum Maxp {
    Version05 { num_glyphs: u16 },
    Version1(Version1),
}

impl Maxp {
    /// The glyph count, present in both versions at the same position.
    pub open spec fn spec_num_glyphs(self) -> u16 {
        match self {
            Maxp::Version05 { num_glyphs } => num_glyphs,
            Maxp::Version1(v1) => v1.num_glyphs,
        }
    }

    /// The number of glyphs in the font.
    pub fn num_glyphs(&self) -> (r: u16)
        ensures
            r == self.spec_num_glyphs(),
    {
        match self {
            Maxp::Version05 { num_glyphs } => *num_glyphs,
            Maxp::Version1(v1) => v1.num_glyphs,
        }
    }
}

impl<'tbl> Table<'tbl> for Maxp {
    open spec fn spec_min_size() -> nat {
        4
    }

    open spec fn spec_parses(s: Seq<u8>, v: Self) -> bool {
        match v {
            Maxp::Version05 { num_glyphs } => spec_be_u32_at(s, 0) == 0x00005000 && num_glyphs
                == spec_be_u16_at(s, 4),
            Maxp::Version1(v1) => spec_be_u32_at(s, 0) == 0x00010000 && Version1::spec_parses(
                s.skip(4),
                v1,
            ),
        }
    }

    open spec fn spec_parse_err(s: Seq<u8>) -> Option<Error> {
        if s.len() < 4 {
            Some(Error::UnexpectedEof)
        } else if spec_be_u32_at(s, 0) == 0x00005000 {
            if s.len() < 6 {
                Some(Error::UnexpectedEof)
            } else {
                None
            }
        } else if spec_be_u32_at(s, 0) == 0x00010000 {
            if s.len() < 32 {
                Some(Error::UnexpectedEof)
            } else {
                None
            }
        } else {
            Some(Error::InvalidData)
        }
    }

    proof fn lemma_short_input_eof(s: Seq<u8>) {
    }

    fn parse(buffer: &'tbl [u8]) -> Result<Self, Error> {
        let mut buf = buffer;
        let version = buf.read::<u32>()?;
        match version {
            0x00005000 => {
                let n = buf.read::<u16>()?;
                Ok(Maxp::Version05 { num_glyphs: n })
            },
            0x00010000 => {
                let tbl = Version1::parse(buf)?;
                Ok(Maxp::Version1(tbl))
            },
            _ => Err(Error::InvalidData),
        }
    }
}

impl<'tbl> TaggedTable<'tbl> for Maxp {
    open spec fn spec_tag() -> Seq<u8> {
        seq![0x6Du8, 0x61u8, 0x78u8, 0x70u8]  // "maxp"

    }

    fn tag() -> (r: Tag) {
        let r = Tag([0x6D, 0x61, 0x78, 0x70]);
        proof {
            assert(r@ =~= Self::spec_tag());
        }
        r
    }
}

/// The full (version 1.0) `maxp` form: fourteen 16-bit maxima.
#[derive(Debug, Clone, Copy, PartialEq, Eq, Structural)]
pub struct Version1 {
    pub num_glyphs: u16,
    pub max_points: u16,
    pub max_contours: u16,
    pub max_composite_points: u16,
    pub max_composite_contours: u16,
    pub max_zones: u16,
    pub max_twilight_points: u16,
    pub max_storage: u16,
    pub max_function_defs: u16,
    pub max_instruction_defs: u16,
    pub max_stack_elements: u16,
    pub max_size_of_instructions: u16,
    pub max_component_elements: u16,
    pub max_component_depth: u16,
}

impl SizedTable for Version1 {
    open spec fn spec_size() -> nat {
        28
    }

    fn size() -> usize {
        28
    }
}

impl<'tbl> Table<'tbl> for Version1 {
    open spec fn spec_min_size() -> nat {
        28
    }

    open spec fn spec_parses(s: Seq<u8>, v: Self) -> bool {
        &&& v.num_glyphs == spec_be_u16_at(s, 0)
        &&& v.max_points == spec_be_u16_at(s, 2)
        &&& v.max_contours == spec_be_u16_at(s, 4)
        &&& v.max_composite_points == spec_be_u16_at(s, 6)
        &&& v.max_composite_contours == spec_be_u16_at(s, 8)
        &&& v.max_zones == spec_be_u16_at(s, 10)
        &&& v.max_twilight_points == spec_be_u16_at(s, 12)
        &&& v.max_storage == spec_be_u16_at(s, 14)
        &&& v.max_function_defs == spec_be_u16_at(s, 16)
        &&& v.max_instruction_defs == spec_be_u16_at(s, 18)
        &&& v.max_stack_elements == spec_be_u16_at(s, 20)
        &&& v.max_size_of_instructions == spec_be_u16_at(s, 22)
        &&& v.max_component_elements == spec_be_u16_at(s, 24)
        &&& v.max_component_depth == spec_be_u16_at(s, 26)
    }

    open spec fn spec_parse_err(s: Seq<u8>) -> Option<Error> {
        if s.len() < 28 {
            Some(Error::UnexpectedEof)
        } else {
            None
        }
    }

    proof fn lemma_short_input_eof(s: Seq<u8>) {
    }

    fn parse(buffer: &'tbl [u8]) -> Result<Self, Error> {
        if buffer.len() < 28 {
            return Err(Error::UnexpectedEof);
        }
        let mut buf = buffer;
        let num_glyphs = buf.read::<u16>()?;
        let max_points = buf.read::<u16>()?;
        let max_contours = buf.read::<u16>()?;
        let max_composite_points = buf.read::<u16>()?;
        let max_composite_contours = buf.read::<u16>()?;
        let max_zones = buf.read::<u16>()?;
        let max_twilight_points = buf.read::<u16>()?;
        let max_storage = buf.read::<u16>()?;
        let max_function_defs = buf.read::<u16>()?;
        let max_instruction_defs = buf.read::<u16>()?;
        let max_stack_elements = buf.read::<u16>()?;
        let max_size_of_instructions = buf.read::<u16>()?;
        let max_component_elements = buf.read::<u16>()?;
        let max_component_depth = buf.read::<u16>()?;
        Ok(
            Version1 {
                num_glyphs,
                max_points,
                max_contours,
                max_composite_points,
                max_composite_contours,
                max_zones,
                max_twilight_points,
                max_storage,
                max_function_defs,
                max_instruction_defs,
                max_stack_elements,
                max_size_of_instructions,
                max_component_elements,
                max_component_depth,
            },
        )
    }
}

} // verus!
