//! The `hmtx` table: per-glyph advance widths and left side bearings.
//!
//! The table holds two regions: `num_h_glyphs` long records of
//! (advance, lsb), then one bare lsb per remaining glyph up to the font's
//! glyph count.  Glyphs in the trailing region share the last long record's
//! advance width.

use crate::decode::parse::{read_i16_at, read_u16_at, spec_be_i16_at, spec_be_u16_at};
use crate::decode::{Error, ReadTable, SizedTable, Table};
use vstd::prelude::*;
use vstd::slice::slice_subrange;

verus! {

/// The horizontal metrics of one glyph.
#[derive(Debug, Clone, Copy, PartialEq, Eq, Structural)]
pub struct HorizontalMetricRecord {
    pub advance_width: u16,
    pub lsb: i16,
}

impl SizedTable for HorizontalMetricRecord {
    open spec fn spec_size() -> nat {
        4
    }

    fn size() -> usize {
        4
    }
}

impl<'tbl> Table<'tbl> for HorizontalMetricRecord {
    open spec fn spec_min_size() -> nat {
        4
    }

    open spec fn spec_parses(s: Seq<u8>, v: Self) -> bool {
        &&& v.advance_width == spec_be_u16_at(s, 0)
        &&& v.lsb == spec_be_i16_at(s, 2)
    }

    open spec fn spec_parse_err(s: Seq<u8>) -> Option<Error> {
        if s.len() < 4 {
            Some(Error::UnexpectedEof)
        } else {
            None
        }
    }

    proof fn lemma_short_input_eof(s: Seq<u8>) {
    }

    fn parse(buffer: &'tbl [u8]) -> Result<Self, Error> {
        if buffer.len() < 4 {
            return Err(Error::UnexpectedEof);
        }
        Ok(
            HorizontalMetricRecord {
                advance_width: read_u16_at(buffer, 0),
                lsb: read_i16_at(buffer, 2),
            },
        )
    }
}

/// The error [`Hmtx::parse`] reports for a buffer `s` and the glyph counts
/// taken from `maxp` and `hhea`, or `None` when it succeeds.  A metric count
/// above the glyph count or below one is invalid data; a buffer too short
/// for both regions is an unexpected end of input.
pub open spec fn spec_hmtx_err(s: Seq<u8>, num_glyphs: u16, num_h_glyphs: u16) -> Option<Error> {
    if num_h_glyphs > num_glyphs {
        Some(Error::InvalidData)
    } else if s.len() < 4 * num_h_glyphs + 2 * (num_glyphs - num_h_glyphs) {
        Some(Error::UnexpectedEof)
    } else if num_h_glyphs < 1 {
        Some(Error::InvalidData)
    } else {
        None
    }
}

/// Relates a successfully parsed [`Hmtx`] to its input: the long-record
/// region, the trailing lsb region and the cached fallback advance (the last
/// long record's advance width).
pub open spec fn spec_hmtx_parses(
    s: Seq<u8>,
    num_glyphs: u16,
    num_h_glyphs: u16,
    v: Hmtx,
) -> bool {
    &&& v.spec_h_metrics() == s.subrange(0, 4 * num_h_glyphs as int)
    &&& v.spec_lsb() == s.subrange(
        4 * num_h_glyphs as int,
        4 * num_h_glyphs as int + 2 * (num_glyphs - num_h_glyphs),
    )
    &&& v.spec_default_advance() == spec_be_u16_at(s, 4 * num_h_glyphs as int - 4)
}

/// The metrics of glyph `gid` over the two regions: a long record decodes
/// its own pair; a trailing glyph pairs its lsb with the fallback advance;
/// a glyph past both regions has no record.
pub open spec fn spec_get_record(
    h_metrics: Seq<u8>,
    lsbs: Seq<u8>,
    default_advance: u16,
    gid: int,
) -> Option<HorizontalMetricRecord> {
    if 4 * gid < h_metrics.len() {
        Some(
            HorizontalMetricRecord {
                advance_width: spec_be_u16_at(h_metrics, 4 * gid),
                lsb: spec_be_i16_at(h_metrics, 4 * gid + 2),
            },
        )
    } else {
        let diff = gid - h_metrics.len() / 4;
        if 2 * diff < lsbs.len() {
            Some(
                HorizontalMetricRecord {
                    advance_width: default_advance,
                    lsb: spec_be_i16_at(lsbs, 2 * diff),
                },
            )
        } else {
            None
        }
    }
}

/// The `hmtx` table: the long-record region, the trailing lsb region and
/// the cached fallback advance width.
#[derive(Debug)]
pub struct Hmtx<'tbl> {
    h_metrics: &'tbl [u8],
    left_side_bearing: &'tbl [u8],
    default_advance: u16,
}

impl<'tbl> Hmtx<'tbl> {
    #[verifier::type_invariant]
    spec fn type_wf(self) -> bool {
        &&& self.h_metrics@.len() % 4 == 0
        &&& self.h_metrics@.len() >= 4
        &&& self.left_side_bearing@.len() % 2 == 0
    }

    /// The bytes of the long-record region (4 bytes per glyph).
    pub closed spec fn spec_h_metrics(self) -> Seq<u8> {
        self.h_metrics@
    }

    /// The bytes of the trailing lsb region (2 bytes per glyph).
    pub closed spec fn spec_lsb(self) -> Seq<u8> {
        self.left_side_bearing@
    }

    /// The advance width shared by every trailing glyph.
    pub closed spec fn spec_default_advance(self) -> u16 {
        self.default_advance
    }

    /// Splits `buffer` into the two metric regions.  `num_glyphs` comes
    /// from the `maxp` table and `num_h_glyphs` from the `hhea` table.
    pub fn parse(buffer: &'tbl [u8], num_glyphs: u16, num_h_glyphs: u16) -> (r: Result<
        Hmtx<'tbl>,
        Error,
    >)
        ensures
            match r {
                Ok(v) => spec_hmtx_err(buffer@, num_glyphs, num_h_glyphs) is None
                    && spec_hmtx_parses(buffer@, num_glyphs, num_h_glyphs, v),
                Err(e) => spec_hmtx_err(buffer@, num_glyphs, num_h_glyphs) == Some(e),
            },
    {
        if num_h_glyphs > num_glyphs {
            return Err(Error::InvalidData);
        }
        let hm_size: usize = 4 * (num_h_glyphs as usize);
        let lsb_size: usize = 2 * ((num_glyphs - num_h_glyphs) as usize);
        if buffer.len() < hm_size + lsb_size {
            return Err(Error::UnexpectedEof);
        }
        if num_h_glyphs < 1 {
            return Err(Error::InvalidData);
        }
        let h_metrics = slice_subrange(buffer, 0, hm_size);
        let left_side_bearing = slice_subrange(buffer, hm_size, hm_size + lsb_size);
        let mut last_record = slice_subrange(h_metrics, hm_size - 4, hm_size);
        let default_advance = last_record.read_table::<HorizontalMetricRecord>()?.advance_width;
        Ok(Hmtx { h_metrics, left_side_bearing, default_advance })
    }

    /// The metrics of glyph `gid`: its own long record, or its trailing lsb
    /// paired with the fallback advance, or `None` past both regions.
    pub fn get_record(&self, glyph_id: u16) -> (r: Option<HorizontalMetricRecord>)
        ensures
            r == spec_get_record(
                self.spec_h_metrics(),
                self.spec_lsb(),
                self.spec_default_advance(),
                glyph_id as int,
            ),
    {
        proof {
            use_type_invariant(&*self);
        }
        let glyph_id = glyph_id as usize;
        if 4 * glyph_id < self.h_metrics.len() {
            return Some(
                HorizontalMetricRecord {
                    advance_width: read_u16_at(self.h_metrics, 4 * glyph_id),
                    lsb: read_i16_at(self.h_metrics, 4 * glyph_id + 2),
                },
            );
        }
        let diff = glyph_id - self.h_metrics.len() / 4;
        if 2 * diff < self.left_side_bearing.len() {
            Some(
                HorizontalMetricRecord {
                    advance_width: self.default_advance,
                    lsb: read_i16_at(self.left_side_bearing, 2 * diff),
                },
            )
        } else {
            None
        }
    }

    /// The advance width of glyph `gid`, if it has a record.
    pub fn get_advance(&self, glyph_id: u16) -> (r: Option<u16>)
        ensures
            r == match spec_get_record(
                self.spec_h_metrics(),
                self.spec_lsb(),
                self.spec_default_advance(),
                glyph_id as int,
            ) {
                Some(rec) => Some(rec.advance_width),
                None => None::<u16>,
            },
    {
        match self.get_record(glyph_id) {
            Some(r) => Some(r.advance_width),
            None => None,
        }
    }

    /// The left side bearing of glyph `gid`, if it has a record.
    pub fn get_lsb(&self, glyph_id: u16) -> (r: Option<i16>)
        ensures
            r == match spec_get_record(
                self.spec_h_metrics(),
                self.spec_lsb(),
                self.spec_default_advance(),
                glyph_id as int,
            ) {
                Some(rec) => Some(rec.lsb),
                None => None::<i16>,
            },
    {
        match self.get_record(glyph_id) {
            Some(r) => Some(r.lsb),
            None => None,
        }
    }
}

/// Compaction law: for a table parsed with `num_h_glyphs = N` long records
/// and `num_glyphs > N` glyphs, every trailing glyph (`N <= gid <
/// num_glyphs`) has a record, its advance width equals that of glyph `N - 1`
/// (the last long record), and its left side bearing is its own entry of the
/// trailing region.
pub proof fn lemma_hmtx_trailing_advance(
    s: Seq<u8>,
    num_glyphs: u16,
    num_h_glyphs: u16,
    h: Hmtx,
    gid: int,
)
    requires
        spec_hmtx_err(s, num_glyphs, num_h_glyphs) is None,
        spec_hmtx_parses(s, num_glyphs, num_h_glyphs, h),
        num_h_glyphs <= gid < num_glyphs,
    ensures
        ({
            let r = spec_get_record(
                h.spec_h_metrics(),
                h.spec_lsb(),
                h.spec_default_advance(),
                gid,
            );
            let last = spec_get_record(
                h.spec_h_metrics(),
                h.spec_lsb(),
                h.spec_default_advance(),
                num_h_glyphs as int - 1,
            );
            &&& r is Some
            &&& last is Some
            &&& r->Some_0.advance_width == last->Some_0.advance_width
            &&& r->Some_0.lsb == spec_be_i16_at(h.spec_lsb(), 2 * (gid - num_h_glyphs))
        }),
{
    let hm = h.spec_h_metrics();
    assert(hm.len() == 4 * num_h_glyphs as int);
    assert(hm.len() / 4 == num_h_glyphs as int);
    assert(spec_be_u16_at(hm, 4 * (num_h_glyphs as int - 1)) == spec_be_u16_at(
        s,
        4 * num_h_glyphs as int - 4,
    ));
}

} // verus!
