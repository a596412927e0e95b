#![allow(non_snake_case)]
//! The `OS/2` table: OS and Windows specific metrics, a fixed layout whose
//! first 100 bytes are decoded here.
//!
//! The table wraps its byte region and extracts each field on demand; the
//! byte offset every accessor reads is stated in its contract.

use crate::decode::parse::{
    be_u8_4, read_i16_at, read_u16_at, read_u32_at, spec_be_i16_at, spec_be_u16_at, spec_be_u32_at,
};
use crate::decode::primitives::Tag;
use crate::decode::{Error, ReadPrimitive, SizedTable, Table};
use crate::table::TaggedTable;
use vstd::prelude::*;
use vstd::slice::slice_subrange;

verus! {

/// The `OS/2` table, wrapping a byte region of at least 100 bytes.
pub struct Os2<'tbl> {
    buffer: &'tbl [u8],
}

impl<'tbl> Os2<'tbl> {
    #[verifier::type_invariant]
    spec fn type_wf(self) -> bool {
        self.buffer@.len() >= 100
    }

    /// The bytes of the table region this value wraps.
    pub closed spec fn spec_table(self) -> Seq<u8> {
        self.buffer@
    }

    /// Field `version`, at byte 0.
    pub fn get_version(&self) -> (r: u16)
        ensures
            r == spec_be_u16_at(self.spec_table(), 0),
    {
        proof {
            use_type_invariant(&*self);
        }
        read_u16_at(self.buffer, 0)
    }

    /// Field `xAvgCharWidth`, at byte 2.
    pub fn get_xAvgCharWidth(&self) -> (r: i16)
        ensures
            r == spec_be_i16_at(self.spec_table(), 2),
    {
        proof {
            use_type_invariant(&*self);
        }
        read_i16_at(self.buffer, 2)
    }

    /// Field `usWeightClass`, at byte 4.
    pub fn get_usWeightClass(&self) -> (r: u16)
        ensures
            r == spec_be_u16_at(self.spec_table(), 4),
    {
        proof {
            use_type_invariant(&*self);
        }
        read_u16_at(self.buffer, 4)
    }

    /// Field `usWidthClass`, at byte 6.
    pub fn get_usWidthClass(&self) -> (r: u16)
        ensures
            r == spec_be_u16_at(self.spec_table(), 6),
    {
        proof {
            use_type_invariant(&*self);
        }
        read_u16_at(self.buffer, 6)
    }

    /// Field `fsType`, at byte 8.
    pub fn get_fsType(&self) -> (r: u16)
        ensures
            r == spec_be_u16_at(self.spec_table(), 8),
    {
        proof {
            use_type_invariant(&*self);
        }
        read_u16_at(self.buffer, 8)
    }

    /// Field `ySubscriptXSize`, at byte 10.
    pub fn get_ySubscriptXSize(&self) -> (r: i16)
        ensures
            r == spec_be_i16_at(self.spec_table(), 10),
    {
        proof {
            use_type_invariant(&*self);
        }
        read_i16_at(self.buffer, 10)
    }

    /// Field `ySubscriptYSize`, at byte 12.
    pub fn get_ySubscriptYSize(&self) -> (r: i16)
        ensures
            r == spec_be_i16_at(self.spec_table(), 12),
    {
        proof {
            use_type_invariant(&*self);
        }
        read_i16_at(self.buffer, 12)
    }

    /// Field `ySubscriptXOffset`, at byte 14.
    pub fn get_ySubscriptXOffset(&self) -> (r: i16)
        ensures
            r == spec_be_i16_at(self.spec_table(), 14),
    {
        proof {
            use_type_invariant(&*self);
        }
        read_i16_at(self.buffer, 14)
    }

    /// Field `ySubscriptYOffset`, at byte 16.
    pub fn get_ySubscriptYOffset(&self) -> (r: i16)
        ensures
            r == spec_be_i16_at(self.spec_table(), 16),
    {
        proof {
            use_type_invariant(&*self);
        }
        read_i16_at(self.buffer, 16)
    }

    /// Field `ySuperscriptXSize`, at byte 18.
    pub fn get_ySuperscriptXSize(&self) -> (r: i16)
        ensures
            r == spec_be_i16_at(self.spec_table(), 18),
    {
        proof {
            use_type_invariant(&*self);
        }
        read_i16_at(self.buffer, 18)
    }

    /// Field `ySuperscriptYSize`, at byte 20.
    pub fn get_ySuperscriptYSize(&self) -> (r: i16)
        ensures
            r == spec_be_i16_at(self.spec_table(), 20),
    {
        proof {
            use_type_invariant(&*self);
        }
        read_i16_at(self.buffer, 20)
    }

    /// Field `ySuperscriptXOffset`, at byte 22.
    pub fn get_ySuperscriptXOffset(&self) -> (r: i16)
        ensures
            r == spec_be_i16_at(self.spec_table(), 22),
    {
        proof {
            use_type_invariant(&*self);
        }
        read_i16_at(self.buffer, 22)
    }

    /// Field `ySuperscriptYOffset`, at byte 24.
    pub fn get_ySuperscriptYOffset(&self) -> (r: i16)
        ensures
            r == spec_be_i16_at(self.spec_table(), 24),
    {
        proof {
            use_type_invariant(&*self);
        }
        read_i16_at(self.buffer, 24)
    }

    /// Field `yStrikeoutSize`, at byte 26.
    pub fn get_yStrikeoutSize(&self) -> (r: i16)
        ensures
            r == spec_be_i16_at(self.spec_table(), 26),
    {
        proof {
            use_type_invariant(&*self);
        }
        read_i16_at(self.buffer, 26)
    }

    /// Field `yStrikeoutPosition`, at byte 28.
    pub fn get_yStrikeoutPosition(&self) -> (r: i16)
        ensures
            r == spec_be_i16_at(self.spec_table(), 28),
    {
        proof {
            use_type_invariant(&*self);
        }
        read_i16_at(self.buffer, 28)
    }

    /// Field `sFamilyClass`, at byte 30.
    pub fn get_sFamilyClass(&self) -> (r: i16)
        ensures
            r == spec_be_i16_at(self.spec_table(), 30),
    {
        proof {
            use_type_invariant(&*self);
        }
        read_i16_at(self.buffer, 30)
    }

    /// Field `panose`, ten classification bytes at byte 32.
    pub fn get_panose(&self) -> (r: Panose)
        ensures
            <Panose as Table>::spec_parses(self.spec_table().subrange(32, 42), r),
    {
        proof {
            use_type_invariant(&*self);
        }
        let region = slice_subrange(self.buffer, 32, 32 + 10);
        match Panose::parse(region) {
            Ok(p) => p,
            Err(_) => {
                proof {
                    assert(false);
                }
                Panose {
                    familty_type: 0,
                    serif_style: 0,
                    weight: 0,
                    proportion: 0,
                    contrast: 0,
                    stroke_variation: 0,
                    arm_style: 0,
                    letter_form: 0,
                    midline: 0,
                    x_height: 0,
                }
            },
        }
    }

    /// Field `ulUnicodeRange1`, at byte 42.
    pub fn get_ulUnicodeRange1(&self) -> (r: u32)
        ensures
            r == spec_be_u32_at(self.spec_table(), 42),
    {
        proof {
            use_type_invariant(&*self);
        }
        read_u32_at(self.buffer, 42)
    }

    /// Field `ulUnicodeRange2`, at byte 46.
    pub fn get_ulUnicodeRange2(&self) -> (r: u32)
        ensures
            r == spec_be_u32_at(self.spec_table(), 46),
    {
        proof {
            use_type_invariant(&*self);
        }
        read_u32_at(self.buffer, 46)
    }

    /// Field `ulUnicodeRange3`, at byte 50.
    pub fn get_ulUnicodeRange3(&self) -> (r: u32)
        ensures
            r == spec_be_u32_at(self.spec_table(), 50),
    {
        proof {
            use_type_invariant(&*self);
        }
        read_u32_at(self.buffer, 50)
    }

    /// Field `ulUnicodeRange4`, at byte 54.
    pub fn get_ulUnicodeRange4(&self) -> (r: u32)
        ensures
            r == spec_be_u32_at(self.spec_table(), 54),
    {
        proof {
            use_type_invariant(&*self);
        }
        read_u32_at(self.buffer, 54)
    }

    /// Field `achVendID`, four vendor-id bytes at byte 58.
    pub fn get_achVendID(&self) -> (r: Tag)
        ensures
            r@ == self.spec_table().subrange(58, 62),
    {
        proof {
            use_type_invariant(&*self);
        }
        let region = slice_subrange(self.buffer, 58, 58 + 4);
        let r = Tag(be_u8_4(region));
        proof {
            assert(r@ =~= self.spec_table().subrange(58, 62));
        }
        r
    }

    /// Field `fsSelection`, at byte 62.
    pub fn get_fsSelection(&self) -> (r: u16)
        ensures
            r == spec_be_u16_at(self.spec_table(), 62),
    {
        proof {
            use_type_invariant(&*self);
        }
        read_u16_at(self.buffer, 62)
    }

    /// Field `usFirstCharIndex`, at byte 64.
    pub fn get_usFirstCharIndex(&self) -> (r: u16)
        ensures
            r == spec_be_u16_at(self.spec_table(), 64),
    {
        proof {
            use_type_invariant(&*self);
        }
        read_u16_at(self.buffer, 64)
    }

    /// Field `usLastCharIndex`, at byte 66.
    pub fn get_usLastCharIndex(&self) -> (r: u16)
        ensures
            r == spec_be_u16_at(self.spec_table(), 66),
    {
        proof {
            use_type_invariant(&*self);
        }
        read_u16_at(self.buffer, 66)
    }

    /// Field `sTypoAscender`, at byte 68.
    pub fn get_sTypoAscender(&self) -> (r: i16)
        ensures
            r == spec_be_i16_at(self.spec_table(), 68),
    {
        proof {
            use_type_invariant(&*self);
        }
        read_i16_at(self.buffer, 68)
    }

    /// Field `sTypoDescender`, at byte 70.
    pub fn get_sTypoDescender(&self) -> (r: i16)
        ensures
            r == spec_be_i16_at(self.spec_table(), 70),
    {
        proof {
            use_type_invariant(&*self);
        }
        read_i16_at(self.buffer, 70)
    }

    /// Field `sTypoLineGap`, at byte 72.
    pub fn get_sTypoLineGap(&self) -> (r: i16)
        ensures
            r == spec_be_i16_at(self.spec_table(), 72),
    {
        proof {
            use_type_invariant(&*self);
        }
        read_i16_at(self.buffer, 72)
    }

    /// Field `usWinAscent`, at byte 74.
    pub fn get_usWinAscent(&self) -> (r: u16)
        ensures
            r == spec_be_u16_at(self.spec_table(), 74),
    {
        proof {
            use_type_invariant(&*self);
        }
        read_u16_at(self.buffer, 74)
    }

    /// Field `usWinDescent`, at byte 76.
    pub fn get_usWinDescent(&self) -> (r: u16)
        ensures
            r == spec_be_u16_at(self.spec_table(), 76),
    {
        proof {
            use_type_invariant(&*self);
        }
        read_u16_at(self.buffer, 76)
    }

    /// Field `ulCodePageRange1`, at byte 78.
    pub fn get_ulCodePageRange1(&self) -> (r: u32)
        ensures
            r == spec_be_u32_at(self.spec_table(), 78),
    {
        proof {
            use_type_invariant(&*self);
        }
        read_u32_at(self.buffer, 78)
    }

    /// Field `ulCodePageRange2`, at byte 82.
    pub fn get_ulCodePageRange2(&self) -> (r: u32)
        ensures
            r == spec_be_u32_at(self.spec_table(), 82),
    {
        proof {
            use_type_invariant(&*self);
        }
        read_u32_at(self.buffer, 82)
    }

    /// Field `xHeight`, at byte 86.
    pub fn get_xHeight(&self) -> (r: i16)
        ensures
            r == spec_be_i16_at(self.spec_table(), 86),
    {
        proof {
            use_type_invariant(&*self);
        }
        read_i16_at(self.buffer, 86)
    }

    /// Field `xCapHeight`, at byte 88.
    pub fn get_xCapHeight(&self) -> (r: i16)
        ensures
            r == spec_be_i16_at(self.spec_table(), 88),
    {
        proof {
            use_type_invariant(&*self);
        }
        read_i16_at(self.buffer, 88)
    }

    /// Field `usDefaultChar`, at byte 90.
    pub fn get_usDefaultChar(&self) -> (r: u16)
        ensures
            r == spec_be_u16_at(self.spec_table(), 90),
    {
        proof {
            use_type_invariant(&*self);
        }
        read_u16_at(self.buffer, 90)
    }

    /// Field `usBreakChar`, at byte 92.
    pub fn get_usBreakChar(&self) -> (r: u16)
        ensures
            r == spec_be_u16_at(self.spec_table(), 92),
    {
        proof {
            use_type_invariant(&*self);
        }
        read_u16_at(self.buffer, 92)
    }

    /// Field `usMaxContext`, at byte 94.
    pub fn get_usMaxContext(&self) -> (r: u16)
        ensures
            r == spec_be_u16_at(self.spec_table(), 94),
    {
        proof {
            use_type_invariant(&*self);
        }
        read_u16_at(self.buffer, 94)
    }

    /// Field `usLowerOpticalPointSize`, at byte 96.
    pub fn get_usLowerOpticalPointSize(&self) -> (r: u16)
        ensures
            r == spec_be_u16_at(self.spec_table(), 96),
    {
        proof {
            use_type_invariant(&*self);
        }
        read_u16_at(self.buffer, 96)
    }

    /// Field `usUpperOpticalPointSize`, at byte 98.
    pub fn get_usUpperOpticalPointSize(&self) -> (r: u16)
        ensures
            r == spec_be_u16_at(self.spec_table(), 98),
    {
        proof {
            use_type_invariant(&*self);
        }
        read_u16_at(self.buffer, 98)
    }
}

impl<'tbl> Table<'tbl> for Os2<'tbl> {
    open spec fn spec_min_size() -> nat {
        100
    }

    open spec fn spec_parses(s: Seq<u8>, v: Self) -> bool {
        v.spec_table() == s && s.len() >= 100
    }

    open spec fn spec_parse_err(s: Seq<u8>) -> Option<Error> {
        if s.len() < 100 {
            Some(Error::UnexpectedEof)
        } else {
            None
        }
    }

    proof fn lemma_short_input_eof(s: Seq<u8>) {
    }

    fn parse(buffer: &'tbl [u8]) -> Result<Self, Error> {
        if buffer.len() < 100 {
            return Err(Error::UnexpectedEof);
        }
        Ok(Os2 { buffer })
    }
}

impl<'tbl> TaggedTable<'tbl> for Os2<'tbl> {
    open spec fn spec_tag() -> Seq<u8> {
        seq![0x4Fu8, 0x53u8, 0x2Fu8, 0x32u8]  // "OS/2"

    }

    fn tag() -> (r: Tag) {
        let r = Tag([0x4F, 0x53, 0x2F, 0x32]);
        proof {
            assert(r@ =~= Self::spec_tag());
        }
        r
    }
}

/// Ten bytes classifying the visual characteristics of the typeface.
#[derive(Debug, Clone, Copy, PartialEq, Eq, Structural)]
pub struct Panose {
    pub familty_type: u8,
    pub serif_style: u8,
    pub weight: u8,
    pub proportion: u8,
    pub contrast: u8,
    pub stroke_variation: u8,
    pub arm_style: u8,
    pub letter_form: u8,
    pub midline: u8,
    pub x_height: u8,
}

impl SizedTable for Panose {
    open spec fn spec_size() -> nat {
        10
    }

    fn size() -> usize {
        10
    }
}

impl<'tbl> Table<'tbl> for Panose {
    open spec fn spec_min_size() -> nat {
        10
    }

    open spec fn spec_parses(s: Seq<u8>, v: Self) -> bool {
        &&& v.familty_type == s[0]
        &&& v.serif_style == s[1]
        &&& v.weight == s[2]
        &&& v.proportion == s[3]
        &&& v.contrast == s[4]
        &&& v.stroke_variation == s[5]
        &&& v.arm_style == s[6]
        &&& v.letter_form == s[7]
        &&& v.midline == s[8]
        &&& v.x_height == s[9]
    }

    open spec fn spec_parse_err(s: Seq<u8>) -> Option<Error> {
        if s.len() < 10 {
            Some(Error::UnexpectedEof)
        } else {
            None
        }
    }

    proof fn lemma_short_input_eof(s: Seq<u8>) {
    }

    fn parse(buffer: &'tbl [u8]) -> Result<Self, Error> {
        if buffer.len() < 10 {
            return Err(Error::UnexpectedEof);
        }
        let mut buf = buffer;
        let familty_type = buf.read::<u8>()?;
        let serif_style = buf.read::<u8>()?;
        let weight = buf.read::<u8>()?;
        let proportion = buf.read::<u8>()?;
        let contrast = buf.read::<u8>()?;
        let stroke_variation = buf.read::<u8>()?;
        let arm_style = buf.read::<u8>()?;
        let letter_form = buf.read::<u8>()?;
        let midline = buf.read::<u8>()?;
        let x_height = buf.read::<u8>()?;
        Ok(
            Panose {
                familty_type,
                serif_style,
                weight,
                proportion,
                contrast,
                stroke_variation,
                arm_style,
                letter_form,
                midline,
                x_height,
            },
        )
    }
}

} // verus!
