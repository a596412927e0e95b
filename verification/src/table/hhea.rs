//! The `hhea` table: the horizontal fonts header, a fixed 36-byte layout
//! whose last field (`number_of_h_metrics`) sizes the `hmtx` table.

use crate::decode::parse::{spec_be_i16_at, spec_be_u16_at};
use crate::decode::primitives::{FWord, Ignored, Tag, UFWord};
use crate::decode::{Error, ReadPrimitive, SizedTable, Table};
use crate::table::TaggedTable;
use vstd::prelude::*;

verus! {

/// The horizontal fonts header table.
#[derive(Debug)]
pub struct Hhea {
    pub major_version: u16,
    pub minor_version: u16,
    pub ascent: FWord,
    pub descent: FWord,
    pub line_gap: FWord,
    pub advance_width_max: UFWord,
    pub min_left_side_bearing: FWord,
    pub min_right_side_bearing: FWord,
    pub x_max_extent: FWord,
    pub caret_slope_rise: i16,
    pub caret_slope_run: i16,
    pub caret_offset: i16,
    pub _reserved1: Ignored<u16>,
    pub _reserved2: Ignored<u16>,
    pub _reserved3: Ignored<u16>,
    pub _reserved4: Ignored<u16>,
    pub metric_data_format: i16,
    pub number_of_h_metrics: u16,
}

impl SizedTable for Hhea {
    open spec fn spec_size() -> nat {
        36
    }

    fn size() -> usize {
        36
    }
}

impl<'tbl> Table<'tbl> for Hhea {
    open spec fn spec_min_size() -> nat {
        36
    }

    open spec fn spec_parses(s: Seq<u8>, v: Self) -> bool {
        &&& v.major_version == spec_be_u16_at(s, 0)
        &&& v.minor_version == spec_be_u16_at(s, 2)
        &&& v.ascent == FWord(spec_be_i16_at(s, 4))
        &&& v.descent == FWord(spec_be_i16_at(s, 6))
        &&& v.line_gap == FWord(spec_be_i16_at(s, 8))
        &&& v.advance_width_max == UFWord(spec_be_u16_at(s, 10))
        &&& v.min_left_side_bearing == FWord(spec_be_i16_at(s, 12))
        &&& v.min_right_side_bearing == FWord(spec_be_i16_at(s, 14))
        &&& v.x_max_extent == FWord(spec_be_i16_at(s, 16))
        &&& v.caret_slope_rise == spec_be_i16_at(s, 18)
        &&& v.caret_slope_run == spec_be_i16_at(s, 20)
        &&& v.caret_offset == spec_be_i16_at(s, 22)
        &&& v.metric_data_format == spec_be_i16_at(s, 32)
        &&& v.number_of_h_metrics == spec_be_u16_at(s, 34)
    }

    open spec fn spec_parse_err(s: Seq<u8>) -> Option<Error> {
        if s.len() < 36 {
            Some(Error::UnexpectedEof)
        } else {
            None
        }
    }

    proof fn lemma_short_input_eof(s: Seq<u8>) {
    }

    fn parse(buffer: &'tbl [u8]) -> Result<Self, Error> {
        if buffer.len() < 36 {
            return Err(Error::UnexpectedEof);
        }
        let mut buf = buffer;
        let major_version = buf.read::<u16>()?;
        let minor_version = buf.read::<u16>()?;
        let ascent = buf.read::<FWord>()?;
        let descent = buf.read::<FWord>()?;
        let line_gap = buf.read::<FWord>()?;
        let advance_width_max = buf.read::<UFWord>()?;
        let min_left_side_bearing = buf.read::<FWord>()?;
        let min_right_side_bearing = buf.read::<FWord>()?;
        let x_max_extent = buf.read::<FWord>()?;
        let caret_slope_rise = buf.read::<i16>()?;
        let caret_slope_run = buf.read::<i16>()?;
        let caret_offset = buf.read::<i16>()?;
        let _reserved1 = buf.read::<Ignored<u16>>()?;
        let _reserved2 = buf.read::<Ignored<u16>>()?;
        let _reserved3 = buf.read::<Ignored<u16>>()?;
        let _reserved4 = buf.read::<Ignored<u16>>()?;
        let metric_data_format = buf.read::<i16>()?;
        let number_of_h_metrics = buf.read::<u16>()?;
        Ok(
            Hhea {
                major_version,
                minor_version,
                ascent,
                descent,
                line_gap,
                advance_width_max,
                min_left_side_bearing,
                min_right_side_bearing,
                x_max_extent,
                caret_slope_rise,
                caret_slope_run,
                caret_offset,
                _reserved1,
                _reserved2,
                _reserved3,
                _reserved4,
                metric_data_format,
                number_of_h_metrics,
            },
        )
    }
}

impl<'tbl> TaggedTable<'tbl> for Hhea {
    open spec fn spec_tag() -> Seq<u8> {
        seq![0x68u8, 0x68u8, 0x65u8, 0x61u8]  // "hhea"

    }

    fn tag() -> (r: Tag) {
        let r = Tag([0x68, 0x68, 0x65, 0x61]);
        proof {
            assert(r@ =~= Self::spec_tag());
        }
        r
    }
}

} // verus!
