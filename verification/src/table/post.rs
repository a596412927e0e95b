//! The `post` table header: PostScript-related metadata, a fixed 32-byte
//! layout.  The glyph-name sub-formats are not decoded.

use crate::decode::parse::{spec_be_i16_at, spec_be_i32_at, spec_be_u32_at};
use crate::decode::primitives::{FWord, Fixed};
use crate::decode::{Error, ReadPrimitive, SizedTable, Table};
use vstd::prelude::*;

verus! {

/// The fixed header of the `post` table.
#[derive(Debug, Clone, Copy, PartialEq, Eq, Structural)]
pub struct Post {
    pub version: u32,
    pub italic_ange: Fixed,
    pub underline_position: FWord,
    pub underline_thickness: FWord,
    pub is_fixed_pitch: u32,
    pub min_mem_type_42: u32,
    pub max_mem_type_42: u32,
    pub min_mem_type_1: u32,
    pub max_mem_type_1: u32,
}

impl SizedTable for Post {
    open spec fn spec_size() -> nat {
        32
    }

    fn size() -> usize {
        32
    }
}

impl<'tbl> Table<'tbl> for Post {
    open spec fn spec_min_size() -> nat {
        32
    }

    open spec fn spec_parses(s: Seq<u8>, v: Self) -> bool {
        &&& v.version == spec_be_u32_at(s, 0)
        &&& v.italic_ange == Fixed(spec_be_i32_at(s, 4))
        &&& v.underline_position == FWord(spec_be_i16_at(s, 8))
        &&& v.underline_thickness == FWord(spec_be_i16_at(s, 10))
        &&& v.is_fixed_pitch == spec_be_u32_at(s, 12)
        &&& v.min_mem_type_42 == spec_be_u32_at(s, 16)
        &&& v.max_mem_type_42 == spec_be_u32_at(s, 20)
        &&& v.min_mem_type_1 == spec_be_u32_at(s, 24)
        &&& v.max_mem_type_1 == spec_be_u32_at(s, 28)
    }

    open spec fn spec_parse_err(s: Seq<u8>) -> Option<Error> {
        if s.len() < 32 {
            Some(Error::UnexpectedEof)
        } else {
            None
        }
    }

    proof fn lemma_short_input_eof(s: Seq<u8>) {
    }

    fn parse(buffer: &'tbl [u8]) -> Result<Self, Error> {
        if buffer.len() < 32 {
            return Err(Error::UnexpectedEof);
        }
        let mut buf = buffer;
        let version = buf.read::<u32>()?;
        let italic_ange = buf.read::<Fixed>()?;
        let underline_position = buf.read::<FWord>()?;
        let underline_thickness = buf.read::<FWord>()?;
        let is_fixed_pitch = buf.read::<u32>()?;
        let min_mem_type_42 = buf.read::<u32>()?;
        let max_mem_type_42 = buf.read::<u32>()?;
        let min_mem_type_1 = buf.read::<u32>()?;
        let max_mem_type_1 = buf.read::<u32>()?;
        Ok(
            Post {
                version,
                italic_ange,
                underline_position,
                underline_thickness,
                is_fixed_pitch,
                min_mem_type_42,
                max_mem_type_42,
                min_mem_type_1,
                max_mem_type_1,
            },
        )
    }
}

} // verus!
