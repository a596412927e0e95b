//! The `head` table: global font metadata, a fixed 54-byte layout.
//!
//! The table wraps its byte region and extracts each field on demand; the
//! byte offset every accessor reads is stated in its contract.

use crate::decode::parse::{
    read_i16_at, read_i32_at, read_i64_at, read_u16_at, spec_be_i16_at, spec_be_i32_at,
    spec_be_i64_at, spec_be_u16_at,
};
use crate::decode::primitives::{Fixed, Tag};
use crate::decode::{Error, Table};
use crate::table::TaggedTable;
use vstd::prelude::*;

verus! {

/// The `head` table, wrapping a byte region of at least 54 bytes.
pub struct Head<'tbl> {
    buffer: &'tbl [u8],
}

impl<'tbl> Head<'tbl> {
    #[verifier::type_invariant]
    spec fn type_wf(self) -> bool {
        self.buffer@.len() >= 54
    }

    /// The bytes of the table region this value wraps.
    pub closed spec fn spec_table(self) -> Seq<u8> {
        self.buffer@
    }

    /// Major version, at byte 0.
    pub fn major_version(&self) -> (r: u16)
        ensures
            r == spec_be_u16_at(self.spec_table(), 0),
    {
        proof {
            use_type_invariant(&*self);
        }
        read_u16_at(self.buffer, 0)
    }

    /// Minor version, at byte 2.
    pub fn minor_version(&self) -> (r: u16)
        ensures
            r == spec_be_u16_at(self.spec_table(), 2),
    {
        proof {
            use_type_invariant(&*self);
        }
        read_u16_at(self.buffer, 2)
    }

    /// Font revision (16.16 fixed point), at byte 4.
    pub fn font_revision(&self) -> (r: Fixed)
        ensures
            r == Fixed(spec_be_i32_at(self.spec_table(), 4)),
    {
        proof {
            use_type_invariant(&*self);
        }
        Fixed(read_i32_at(self.buffer, 4))
    }

    /// Checksum adjustment, at byte 8.
    pub fn check_sum_adjustment(&self) -> (r: i32)
        ensures
            r == spec_be_i32_at(self.spec_table(), 8),
    {
        proof {
            use_type_invariant(&*self);
        }
        read_i32_at(self.buffer, 8)
    }

    /// Magic number, at byte 12.
    pub fn magic_number(&self) -> (r: i32)
        ensures
            r == spec_be_i32_at(self.spec_table(), 12),
    {
        proof {
            use_type_invariant(&*self);
        }
        read_i32_at(self.buffer, 12)
    }

    /// Flags, at byte 16.
    pub fn flags(&self) -> (r: u16)
        ensures
            r == spec_be_u16_at(self.spec_table(), 16),
    {
        proof {
            use_type_invariant(&*self);
        }
        read_u16_at(self.buffer, 16)
    }

    /// Design units per em, at byte 18.
    pub fn units_per_em(&self) -> (r: u16)
        ensures
            r == spec_be_u16_at(self.spec_table(), 18),
    {
        proof {
            use_type_invariant(&*self);
        }
        read_u16_at(self.buffer, 18)
    }

    /// Creation timestamp, at byte 20.
    pub fn created(&self) -> (r: i64)
        ensures
            r == spec_be_i64_at(self.spec_table(), 20),
    {
        proof {
            use_type_invariant(&*self);
        }
        read_i64_at(self.buffer, 20)
    }

    /// Modification timestamp, at byte 28.
    pub fn modified(&self) -> (r: i64)
        ensures
            r == spec_be_i64_at(self.spec_table(), 28),
    {
        proof {
            use_type_invariant(&*self);
        }
        read_i64_at(self.buffer, 28)
    }

    /// Minimum x of all glyph bounding boxes, at byte 36.
    pub fn x_min(&self) -> (r: i16)
        ensures
            r == spec_be_i16_at(self.spec_table(), 36),
    {
        proof {
            use_type_invariant(&*self);
        }
        read_i16_at(self.buffer, 36)
    }

    /// Minimum y of all glyph bounding boxes, at byte 38.
    pub fn y_min(&self) -> (r: i16)
        ensures
            r == spec_be_i16_at(self.spec_table(), 38),
    {
        proof {
            use_type_invariant(&*self);
        }
        read_i16_at(self.buffer, 38)
    }

    /// Maximum x of all glyph bounding boxes, at byte 40.
    pub fn x_max(&self) -> (r: i16)
        ensures
            r == spec_be_i16_at(self.spec_table(), 40),
    {
        proof {
            use_type_invariant(&*self);
        }
        read_i16_at(self.buffer, 40)
    }

    /// Maximum y of all glyph bounding boxes, at byte 42.
    pub fn y_max(&self) -> (r: i16)
        ensures
            r == spec_be_i16_at(self.spec_table(), 42),
    {
        proof {
            use_type_invariant(&*self);
        }
        read_i16_at(self.buffer, 42)
    }

    /// Macintosh style bits, at byte 44.
    pub fn mac_style(&self) -> (r: u16)
        ensures
            r == spec_be_u16_at(self.spec_table(), 44),
    {
        proof {
            use_type_invariant(&*self);
        }
        read_u16_at(self.buffer, 44)
    }

    /// Smallest readable size in pixels, at byte 46.
    pub fn lowest_rec_ppem(&self) -> (r: u16)
        ensures
            r == spec_be_u16_at(self.spec_table(), 46),
    {
        proof {
            use_type_invariant(&*self);
        }
        read_u16_at(self.buffer, 46)
    }

    /// Font direction hint, at byte 48.
    pub fn font_direction_hint(&self) -> (r: i16)
        ensures
            r == spec_be_i16_at(self.spec_table(), 48),
    {
        proof {
            use_type_invariant(&*self);
        }
        read_i16_at(self.buffer, 48)
    }

    /// `loca` offset format, at byte 50.
    pub fn index_to_loc_format(&self) -> (r: i16)
        ensures
            r == spec_be_i16_at(self.spec_table(), 50),
    {
        proof {
            use_type_invariant(&*self);
        }
        read_i16_at(self.buffer, 50)
    }

    /// Glyph data format, at byte 52.
    pub fn glyph_data_format(&self) -> (r: i16)
        ensures
            r == spec_be_i16_at(self.spec_table(), 52),
    {
        proof {
            use_type_invariant(&*self);
        }
        read_i16_at(self.buffer, 52)
    }
}

impl<'tbl> Table<'tbl> for Head<'tbl> {
    open spec fn spec_min_size() -> nat {
        54
    }

    open spec fn spec_parses(s: Seq<u8>, v: Self) -> bool {
        v.spec_table() == s && s.len() >= 54
    }

    open spec fn spec_parse_err(s: Seq<u8>) -> Option<Error> {
        if s.len() < 54 {
            Some(Error::UnexpectedEof)
        } else {
            None
        }
    }

    proof fn lemma_short_input_eof(s: Seq<u8>) {
    }

    fn parse(buffer: &'tbl [u8]) -> Result<Self, Error> {
        if buffer.len() < 54 {
            return Err(Error::UnexpectedEof);
        }
        Ok(Head { buffer })
    }
}

impl<'tbl> TaggedTable<'tbl> for Head<'tbl> {
    open spec fn spec_tag() -> Seq<u8> {
        seq![0x68u8, 0x65u8, 0x61u8, 0x64u8]  // "head"

    }

    fn tag() -> (r: Tag) {
        let r = Tag([0x68, 0x65, 0x61, 0x64]);
        proof {
            assert(r@ =~= Self::spec_tag());
        }
        r
    }
}

} // verus!
