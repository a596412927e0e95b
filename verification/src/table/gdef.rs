//! The `GDEF` table header and its sub-lists.
//!
//! The header is a minor-version-gated sequence of nullable offsets: a field
//! is read only when the minor version is at or above the version that
//! introduced it, a raw value of 0 means the feature is absent, and a
//! nonzero offset must resolve within the header's own byte region or the
//! parse fails with `UnexpectedEof`.

use crate::decode::parse::{read_u16_at, read_u32_at, spec_be_u16_at, spec_be_u32_at};
use crate::decode::{Error, Table};
use vstd::prelude::*;
use vstd::slice::slice_subrange;

verus! {

/// Whether the 16-bit offset at byte `i` of `s` is nonzero yet points past
/// the end of `s`.
pub open spec fn spec_offset16_oob(s: Seq<u8>, i: int) -> bool {
    spec_be_u16_at(s, i) != 0 && spec_be_u16_at(s, i) > s.len()
}

/// Whether the 32-bit offset at byte `i` of `s` is nonzero yet points past
/// the end of `s`.
pub open spec fn spec_offset32_oob(s: Seq<u8>, i: int) -> bool {
    spec_be_u32_at(s, i) != 0 && spec_be_u32_at(s, i) > s.len()
}

/// Relates a nullable 16-bit offset field at byte `i` of `s` to the
/// resolved sub-view: absent when 0, otherwise the suffix it names.
pub open spec fn spec_sub16<'a>(s: Seq<u8>, i: int, f: Option<&'a [u8]>) -> bool {
    if spec_be_u16_at(s, i) == 0 {
        f is None
    } else {
        f matches Some(b) && b@ == s.skip(spec_be_u16_at(s, i) as int)
    }
}

/// Relates a nullable 32-bit offset field at byte `i` of `s` to the
/// resolved sub-view.
pub open spec fn spec_sub32<'a>(s: Seq<u8>, i: int, f: Option<&'a [u8]>) -> bool {
    if spec_be_u32_at(s, i) == 0 {
        f is None
    } else {
        f matches Some(b) && b@ == s.skip(spec_be_u32_at(s, i) as int)
    }
}

/// The `GDEF` header: six independently nullable table offsets, the last
/// two gated by the minor version (1.2 adds the mark glyph sets, 1.3 the
/// item variation store).
#[derive(Debug)]
pub struct Header<'tbl> {
    pub glyph_class_def: Option<&'tbl [u8]>,
    pub attach_list: Option<&'tbl [u8]>,
    pub lig_caret_list: Option<&'tbl [u8]>,
    pub mark_attach_class_def: Option<&'tbl [u8]>,
    pub mark_glyph_sets_def: Option<&'tbl [u8]>,
    pub item_var_store: Option<&'tbl [u8]>,
}

impl<'tbl> Table<'tbl> for Header<'tbl> {
    open spec fn spec_min_size() -> nat {
        12
    }

    open spec fn spec_parses(s: Seq<u8>, v: Self) -> bool {
        &&& spec_sub16(s, 4, v.glyph_class_def)
        &&& spec_sub16(s, 6, v.attach_list)
        &&& spec_sub16(s, 8, v.lig_caret_list)
        &&& spec_sub16(s, 10, v.mark_attach_class_def)
        &&& if spec_be_u16_at(s, 2) >= 2 {
            spec_sub16(s, 12, v.mark_glyph_sets_def)
        } else {
            v.mark_glyph_sets_def is None
        }
        &&& if spec_be_u16_at(s, 2) >= 3 {
            spec_sub32(s, 14, v.item_var_store)
        } else {
            v.item_var_store is None
        }
    }

    open spec fn spec_parse_err(s: Seq<u8>) -> Option<Error> {
        if s.len() < 12 {
            Some(Error::UnexpectedEof)
        } else if spec_offset16_oob(s, 4) || spec_offset16_oob(s, 6) || spec_offset16_oob(s, 8)
            || spec_offset16_oob(s, 10) {
            Some(Error::UnexpectedEof)
        } else if spec_be_u16_at(s, 2) >= 2 && (s.len() < 14 || spec_offset16_oob(s, 12)) {
            Some(Error::UnexpectedEof)
        } else if spec_be_u16_at(s, 2) >= 3 && (s.len() < 18 || spec_offset32_oob(s, 14)) {
            Some(Error::UnexpectedEof)
        } else {
            None
        }
    }

    proof fn lemma_short_input_eof(s: Seq<u8>) {
    }

    fn parse(buffer: &'tbl [u8]) -> Result<Self, Error> {
        if buffer.len() < 12 {
            return Err(Error::UnexpectedEof);
        }
        let minor = read_u16_at(buffer, 2);

        // Version >= 1.0.
        let glyph_class_def = offset16_maybe_null(buffer, 4)?;
        let attach_list = offset16_maybe_null(buffer, 6)?;
        let lig_caret_list = offset16_maybe_null(buffer, 8)?;
        let mark_attach_class_def = offset16_maybe_null(buffer, 10)?;

        // Version >= 1.2.
        let mark_glyph_sets_def = if minor >= 2 {
            if buffer.len() < 14 {
                return Err(Error::UnexpectedEof);
            }
            offset16_maybe_null(buffer, 12)?
        } else {
            None
        };

        // Version >= 1.3.
        let item_var_store = if minor >= 3 {
            if buffer.len() < 18 {
                return Err(Error::UnexpectedEof);
            }
            offset32_maybe_null(buffer, 14)?
        } else {
            None
        };

        Ok(
            Header {
                glyph_class_def,
                attach_list,
                lig_caret_list,
                mark_attach_class_def,
                mark_glyph_sets_def,
                item_var_store,
            },
        )
    }
}

/// Resolves the nullable 16-bit offset at byte `i` of `head`: absent when
/// 0, the named suffix when in bounds, `UnexpectedEof` otherwise.
fn offset16_maybe_null<'a>(head: &'a [u8], i: usize) -> (r: Result<Option<&'a [u8]>, Error>)
    requires
        i + 2 <= head@.len(),
    ensures
        match r {
            Ok(f) => !spec_offset16_oob(head@, i as int) && spec_sub16(head@, i as int, f),
            Err(e) => e == Error::UnexpectedEof && spec_offset16_oob(head@, i as int),
        },
{
    let off = read_u16_at(head, i) as usize;
    if off == 0 {
        Ok(None)
    } else if off > head.len() {
        Err(Error::UnexpectedEof)
    } else {
        Ok(Some(slice_subrange(head, off, head.len())))
    }
}

/// Resolves the nullable 32-bit offset at byte `i` of `head`, as
/// [`offset16_maybe_null`] does.
fn offset32_maybe_null<'a>(head: &'a [u8], i: usize) -> (r: Result<Option<&'a [u8]>, Error>)
    requires
        i + 4 <= head@.len(),
    ensures
        match r {
            Ok(f) => !spec_offset32_oob(head@, i as int) && spec_sub32(head@, i as int, f),
            Err(e) => e == Error::UnexpectedEof && spec_offset32_oob(head@, i as int),
        },
{
    let off = read_u32_at(head, i);
    if off == 0 {
        Ok(None)
    } else if off as u64 > head.len() as u64 {
        Err(Error::UnexpectedEof)
    } else {
        Ok(Some(slice_subrange(head, off as usize, head.len())))
    }
}

/// The attachment point list: a coverage sub-view and the per-glyph attach
/// point offsets.
pub struct AttachList<'tbl> {
    coverage: &'tbl [u8],
    attach_point: &'tbl [u8],
}

impl<'tbl> AttachList<'tbl> {
    /// The coverage sub-view.
    pub closed spec fn spec_coverage(self) -> Seq<u8> {
        self.coverage@
    }

    /// The attach point offset region (2 bytes per covered glyph).
    pub closed spec fn spec_attach_point(self) -> Seq<u8> {
        self.attach_point@
    }
}

impl<'tbl> Table<'tbl> for AttachList<'tbl> {
    open spec fn spec_min_size() -> nat {
        4
    }

    open spec fn spec_parses(s: Seq<u8>, v: Self) -> bool {
        &&& v.spec_coverage() == s.skip(spec_be_u16_at(s, 0) as int)
        &&& v.spec_attach_point() == s.subrange(4, 4 + 2 * (spec_be_u16_at(s, 2) as int))
    }

    open spec fn spec_parse_err(s: Seq<u8>) -> Option<Error> {
        if s.len() < 4 {
            Some(Error::UnexpectedEof)
        } else if s.len() - 4 < spec_be_u16_at(s, 0) {
            Some(Error::UnexpectedEof)
        } else if s.len() - 4 < 2 * (spec_be_u16_at(s, 2) as int) {
            Some(Error::UnexpectedEof)
        } else {
            None
        }
    }

    proof fn lemma_short_input_eof(s: Seq<u8>) {
    }

    fn parse(buffer: &'tbl [u8]) -> Result<Self, Error> {
        if buffer.len() < 4 {
            return Err(Error::UnexpectedEof);
        }
        let coverage_offset = read_u16_at(buffer, 0) as usize;
        let glyph_count_size = 2 * (read_u16_at(buffer, 2) as usize);
        if buffer.len() - 4 < coverage_offset {
            return Err(Error::UnexpectedEof);
        }
        let coverage = slice_subrange(buffer, coverage_offset, buffer.len());
        if buffer.len() - 4 < glyph_count_size {
            return Err(Error::UnexpectedEof);
        }
        let attach_point = slice_subrange(buffer, 4, 4 + glyph_count_size);
        Ok(AttachList { coverage, attach_point })
    }
}

/// One attachment point table: the contour point indices of one glyph.
pub struct AttachPoint<'tbl> {
    point_index: &'tbl [u8],
}

impl<'tbl> AttachPoint<'tbl> {
    /// The contour point index region (2 bytes per point).
    pub closed spec fn spec_point_index(self) -> Seq<u8> {
        self.point_index@
    }
}

impl<'tbl> Table<'tbl> for AttachPoint<'tbl> {
    open spec fn spec_min_size() -> nat {
        2
    }

    open spec fn spec_parses(s: Seq<u8>, v: Self) -> bool {
        v.spec_point_index() == s.subrange(2, 2 + 2 * (spec_be_u16_at(s, 0) as int))
    }

    open spec fn spec_parse_err(s: Seq<u8>) -> Option<Error> {
        if s.len() < 2 {
            Some(Error::UnexpectedEof)
        } else if s.len() - 2 < 2 * (spec_be_u16_at(s, 0) as int) {
            Some(Error::UnexpectedEof)
        } else {
            None
        }
    }

    proof fn lemma_short_input_eof(s: Seq<u8>) {
    }

    fn parse(buffer: &'tbl [u8]) -> Result<Self, Error> {
        if buffer.len() < 2 {
            return Err(Error::UnexpectedEof);
        }
        let point_count = 2 * (read_u16_at(buffer, 0) as usize);
        if buffer.len() - 2 < point_count {
            return Err(Error::UnexpectedEof);
        }
        let point_index = slice_subrange(buffer, 2, 2 + point_count);
        Ok(AttachPoint { point_index })
    }
}

/// The ligature caret list: a coverage sub-view and the per-ligature caret
/// value offsets.
pub struct LigCaretList<'tbl> {
    coverage: &'tbl [u8],
    lig_glyph: &'tbl [u8],
}

impl<'tbl> LigCaretList<'tbl> {
    /// The coverage sub-view.
    pub closed spec fn spec_coverage(self) -> Seq<u8> {
        self.coverage@
    }

    /// The ligature glyph offset region (2 bytes per covered ligature).
    pub closed spec fn spec_lig_glyph(self) -> Seq<u8> {
        self.lig_glyph@
    }
}

impl<'tbl> Table<'tbl> for LigCaretList<'tbl> {
    open spec fn spec_min_size() -> nat {
        4
    }

    open spec fn spec_parses(s: Seq<u8>, v: Self) -> bool {
        &&& v.spec_coverage() == s.skip(spec_be_u16_at(s, 0) as int)
        &&& v.spec_lig_glyph() == s.subrange(4, 4 + 2 * (spec_be_u16_at(s, 2) as int))
    }

    open spec fn spec_parse_err(s: Seq<u8>) -> Option<Error> {
        if s.len() < 4 {
            Some(Error::UnexpectedEof)
        } else if s.len() - 4 < spec_be_u16_at(s, 0) {
            Some(Error::UnexpectedEof)
        } else if s.len() - 4 < 2 * (spec_be_u16_at(s, 2) as int) {
            Some(Error::UnexpectedEof)
        } else {
            None
        }
    }

    proof fn lemma_short_input_eof(s: Seq<u8>) {
    }

    fn parse(buffer: &'tbl [u8]) -> Result<Self, Error> {
        if buffer.len() < 4 {
            return Err(Error::UnexpectedEof);
        }
        let coverage_offset = read_u16_at(buffer, 0) as usize;
        let glyph_count_size = 2 * (read_u16_at(buffer, 2) as usize);
        if buffer.len() - 4 < coverage_offset {
            return Err(Error::UnexpectedEof);
        }
        let coverage = slice_subrange(buffer, coverage_offset, buffer.len());
        if buffer.len() - 4 < glyph_count_size {
            return Err(Error::UnexpectedEof);
        }
        let lig_glyph = slice_subrange(buffer, 4, 4 + glyph_count_size);
        Ok(LigCaretList { coverage, lig_glyph })
    }
}

/// One caret value: a coordinate, a contour point, or a device-adjusted
/// coordinate carrying its device sub-view.
enum CaretValue<'tbl> {
    Coordinate(u16),
    ContourPoint(u16),
    DeviceTable { value: u16, device_table: &'tbl [u8] },
}

impl<'tbl> Table<'tbl> for CaretValue<'tbl> {
    open spec fn spec_min_size() -> nat {
        4
    }

    closed spec fn spec_parses(s: Seq<u8>, v: Self) -> bool {
        match v {
            CaretValue::Coordinate(value) => spec_be_u16_at(s, 0) == 1 && value == spec_be_u16_at(
                s,
                2,
            ),
            CaretValue::ContourPoint(value) => spec_be_u16_at(s, 0) == 2 && value
                == spec_be_u16_at(s, 2),
            CaretValue::DeviceTable { value, device_table } => {
                &&& spec_be_u16_at(s, 0) == 3
                &&& value == spec_be_u16_at(s, 2)
                &&& device_table@ == s.skip(4 + spec_be_u16_at(s, 2) as int)
            },
        }
    }

    open spec fn spec_parse_err(s: Seq<u8>) -> Option<Error> {
        if s.len() < 4 {
            Some(Error::UnexpectedEof)
        } else if spec_be_u16_at(s, 0) == 1 || spec_be_u16_at(s, 0) == 2 {
            None
        } else if spec_be_u16_at(s, 0) == 3 {
            if s.len() - 4 < spec_be_u16_at(s, 2) {
                Some(Error::UnexpectedEof)
            } else {
                None
            }
        } else {
            Some(Error::InvalidData)
        }
    }

    proof fn lemma_short_input_eof(s: Seq<u8>) {
    }

    fn parse(buffer: &'tbl [u8]) -> Result<Self, Error> {
        if buffer.len() < 4 {
            return Err(Error::UnexpectedEof);
        }
        let format = read_u16_at(buffer, 0);
        let value = read_u16_at(buffer, 2);
        match format {
            1 => Ok(CaretValue::Coordinate(value)),
            2 => Ok(CaretValue::ContourPoint(value)),
            3 => {
                if buffer.len() - 4 < value as usize {
                    return Err(Error::UnexpectedEof);
                }
                let device_table = slice_subrange(buffer, 4 + value as usize, buffer.len());
                Ok(CaretValue::DeviceTable { value, device_table })
            },
            _ => Err(Error::InvalidData),
        }
    }
}

/// The mark glyph sets table (format 1): the region of 32-bit coverage
/// offsets.
pub struct MarkGlyphSets<'tbl> {
    coverage: &'tbl [u8],
}

impl<'tbl> MarkGlyphSets<'tbl> {
    /// The coverage offset region (4 bytes per set).
    pub closed spec fn spec_coverage(self) -> Seq<u8> {
        self.coverage@
    }
}

impl<'tbl> Table<'tbl> for MarkGlyphSets<'tbl> {
    open spec fn spec_min_size() -> nat {
        4
    }

    open spec fn spec_parses(s: Seq<u8>, v: Self) -> bool {
        &&& spec_be_u16_at(s, 0) == 1
        &&& v.spec_coverage() == s.subrange(4, 4 + 4 * (spec_be_u16_at(s, 2) as int))
    }

    open spec fn spec_parse_err(s: Seq<u8>) -> Option<Error> {
        if s.len() < 4 {
            Some(Error::UnexpectedEof)
        } else if spec_be_u16_at(s, 0) != 1 {
            Some(Error::InvalidData)
        } else if s.len() - 4 < 4 * (spec_be_u16_at(s, 2) as int) {
            Some(Error::UnexpectedEof)
        } else {
            None
        }
    }

    proof fn lemma_short_input_eof(s: Seq<u8>) {
    }

    fn parse(buffer: &'tbl [u8]) -> Result<Self, Error> {
        if buffer.len() < 4 {
            return Err(Error::UnexpectedEof);
        }
        let format = read_u16_at(buffer, 0);
        let coverage_size = 4 * (read_u16_at(buffer, 2) as usize);
        if format != 1 {
            return Err(Error::InvalidData);
        }
        if buffer.len() - 4 < coverage_size {
            return Err(Error::UnexpectedEof);
        }
        let coverage = slice_subrange(buffer, 4, 4 + coverage_size);
        Ok(MarkGlyphSets { coverage })
    }
}

} // verus!
