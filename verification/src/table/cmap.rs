//! The `cmap` table: character-to-glyph mapping.
//!
//! The header enumerates encoding records; each record names a subtable by
//! an offset relative to the start of the cmap table (never the file).  A
//! subtable is one of the supported formats: 4 (segment mapping), 6 (trimmed
//! array) or 12 (segmented coverage); any other format is reported as
//! `UnsupportedCmapFormat` so callers can skip it rather than abort.
//!
//! Format 12 note: a group maps `codepoint` to
//! `start_glyph_id + (codepoint - start_char_code)`, the documented formula
//! for segmented coverage, truncated to 16 bits by this decoder's glyph-id
//! type.

use crate::decode::parse::{
    read_u16_at, read_u32_at, spec_be_u16_at, spec_be_u32_at,
};
use crate::decode::primitives::{Ignored, Tag};
use crate::decode::{Error, ReadPrimitive, SizedTable, Table};
use crate::table::TaggedTable;
use vstd::prelude::*;
use vstd::slice::slice_subrange;

verus! {

// ---------------------------------------------------------------------------
// Format 4: segment mapping to delta values
// ---------------------------------------------------------------------------
/// The error format 4 parsing reports on a subtable body `s` (the bytes
/// after the 4-byte format/length prefix), or `None` when it succeeds.
pub open spec fn spec_format4_err(s: Seq<u8>) -> Option<Error> {
    if s.len() < 10 {
        Some(Error::UnexpectedEof)
    } else if s.len() < 12 + 4 * (spec_be_u16_at(s, 2) as int) {
        Some(Error::UnexpectedEof)
    } else {
        None
    }
}

/// Relates a format 4 subtable body to its parsed regions: after language
/// and `segCountX2` (the byte length of each parallel region) and three
/// skipped search hints come the end codes, a 2-byte pad, the start codes,
/// the id deltas, the id range offsets, and the glyph-id array to the end.
pub open spec fn spec_format4_parses(s: Seq<u8>, f: Format4) -> bool {
    let seg = spec_be_u16_at(s, 2) as int;
    &&& f.spec_language() == spec_be_u16_at(s, 0)
    &&& f.spec_end() == s.subrange(10, 10 + seg)
    &&& f.spec_start() == s.subrange(12 + seg, 12 + 2 * seg)
    &&& f.spec_delta() == s.subrange(12 + 2 * seg, 12 + 3 * seg)
    &&& f.spec_idoff() == s.subrange(12 + 3 * seg, 12 + 4 * seg)
    &&& f.spec_gids() == s.skip(12 + 4 * seg)
}

/// The byte index (a multiple of 2) of the first segment, scanning forward
/// from `idx`, whose end code is at least `cp`; `None` when no segment ends
/// at or above `cp`.
pub open spec fn spec_f4_find(end: Seq<u8>, cp: u16, idx: int) -> Option<int>
    decreases end.len() - idx,
{
    if idx < 0 || idx + 2 > end.len() {
        None
    } else if spec_be_u16_at(end, idx) >= cp {
        Some(idx)
    } else {
        spec_f4_find(end, cp, idx + 2)
    }
}

/// The format 4 lookup over the parallel regions.  Codepoints at or above
/// 0xFFFE are reserved and never map.  Scanning in ascending end-code order
/// finds the first segment ending at or past the codepoint; a codepoint
/// below that segment's start lies in a gap and has no mapping.  A zero id
/// range offset maps to `(codepoint + id_delta) mod 65536`; a nonzero one
/// indexes the glyph-id array relative to the offset's own storage position
/// (out-of-range positions have no mapping).
pub open spec fn spec_format4_lookup(
    end: Seq<u8>,
    start: Seq<u8>,
    delta: Seq<u8>,
    idoff: Seq<u8>,
    gids: Seq<u8>,
    codepoint: u32,
) -> Option<u16> {
    if codepoint >= 0xFFFE {
        None
    } else {
        let c = codepoint as u16;
        match spec_f4_find(end, c, 0) {
            None => None,
            Some(i) => {
                let startcode = spec_be_u16_at(start, i);
                if startcode > c {
                    None
                } else if spec_be_u16_at(idoff, i) == 0 {
                    Some((((c as int) + (spec_be_u16_at(delta, i) as int)) % 0x10000) as u16)
                } else {
                    let pos = i + spec_be_u16_at(idoff, i) + 2 * ((c as int) - (
                    startcode as int)) - idoff.len();
                    if 0 <= pos && pos + 2 <= gids.len() {
                        Some(spec_be_u16_at(gids, pos))
                    } else {
                        None
                    }
                }
            },
        }
    }
}

/// A format 4 (segment mapping) subtable: five parallel regions of
/// `segCountX2` bytes each and the trailing glyph-id array.
#[derive(Debug)]
pub struct Format4<'tbl> {
    language: u16,
    end_count: &'tbl [u8],
    start_count: &'tbl [u8],
    id_delta: &'tbl [u8],
    id_offset: &'tbl [u8],
    glyph_ids: &'tbl [u8],
}

impl<'tbl> Format4<'tbl> {
    #[verifier::type_invariant]
    spec fn type_wf(self) -> bool {
        &&& self.start_count@.len() == self.end_count@.len()
        &&& self.id_delta@.len() == self.end_count@.len()
        &&& self.id_offset@.len() == self.end_count@.len()
    }

    /// The language field.
    pub closed spec fn spec_language(self) -> u16 {
        self.language
    }

    /// The end-code region.
    pub closed spec fn spec_end(self) -> Seq<u8> {
        self.end_count@
    }

    /// The start-code region.
    pub closed spec fn spec_start(self) -> Seq<u8> {
        self.start_count@
    }

    /// The id-delta region.
    pub closed spec fn spec_delta(self) -> Seq<u8> {
        self.id_delta@
    }

    /// The id-range-offset region.
    pub closed spec fn spec_idoff(self) -> Seq<u8> {
        self.id_offset@
    }

    /// The glyph-id array.
    pub closed spec fn spec_gids(self) -> Seq<u8> {
        self.glyph_ids@
    }

    /// Looks up the glyph id of `codepoint` by segment scan.
    pub fn get_glyph_id(&self, codepoint: u32) -> (r: Option<u16>)
        ensures
            r == spec_format4_lookup(
                self.spec_end(),
                self.spec_start(),
                self.spec_delta(),
                self.spec_idoff(),
                self.spec_gids(),
                codepoint,
            ),
    {
        proof {
            use_type_invariant(&*self);
        }
        if codepoint >= 0xFFFE {
            return None;
        }
        let c = codepoint as u16;
        let n: usize = self.end_count.len();
        let mut idx: usize = 0;
        loop
            invariant
                codepoint < 0xFFFE,
                c == codepoint as u16,
                n == self.end_count@.len(),
                self.start_count@.len() == n,
                self.id_delta@.len() == n,
                self.id_offset@.len() == n,
                0 <= idx <= n,
                spec_f4_find(self.end_count@, c, 0) == spec_f4_find(
                    self.end_count@,
                    c,
                    idx as int,
                ),
            decreases n - idx,
        {
            if n < 2 || idx > n - 2 {
                return None;
            }
            let endcode = read_u16_at(self.end_count, idx);
            if endcode >= c {
                proof {
                    assert(spec_f4_find(self.end_count@, c, idx as int) == Some(idx as int));
                }
                let startcode = read_u16_at(self.start_count, idx);
                if startcode > c {
                    return None;
                }
                let id_off = read_u16_at(self.id_offset, idx);
                if id_off == 0 {
                    let delta = read_u16_at(self.id_delta, idx);
                    let g = (((c as u32) + (delta as u32)) % 0x10000) as u16;
                    return Some(g);
                }
                // The nonzero offset is relative to its own storage position
                // (byte `idx` of the id-range-offset region), so the target
                // position relative to the glyph-id array start is
                // idx + id_off + 2*(c - startcode) - (region length),
                // computed here as extra - (n - idx) to stay in range.
                let extra: u64 = (id_off as u64) + 2 * ((c - startcode) as u64);
                let diff_n: u64 = (n - idx) as u64;
                if extra < diff_n {
                    return None;
                }
                let rel64: u64 = extra - diff_n;
                if rel64 + 2 > (self.glyph_ids.len() as u64) {
                    return None;
                }
                let rel: usize = rel64 as usize;
                return Some(read_u16_at(self.glyph_ids, rel));
            }
            proof {
                assert(spec_f4_find(self.end_count@, c, idx as int) == spec_f4_find(
                    self.end_count@,
                    c,
                    idx as int + 2,
                ));
            }
            idx = idx + 2;
        }
    }
}

impl<'tbl> Table<'tbl> for Format4<'tbl> {
    open spec fn spec_min_size() -> nat {
        10
    }

    open spec fn spec_parses(s: Seq<u8>, v: Self) -> bool {
        spec_format4_parses(s, v)
    }

    open spec fn spec_parse_err(s: Seq<u8>) -> Option<Error> {
        spec_format4_err(s)
    }

    proof fn lemma_short_input_eof(s: Seq<u8>) {
    }

    fn parse(buffer: &'tbl [u8]) -> Result<Self, Error> {
        if buffer.len() < 10 {
            return Err(Error::UnexpectedEof);
        }
        let language = read_u16_at(buffer, 0);
        let seg_count = read_u16_at(buffer, 2) as usize;
        // searchRange, entrySelector and rangeShift are skipped.
        if buffer.len() - 10 < 4 * seg_count + 2 {
            return Err(Error::UnexpectedEof);
        }
        let end_count = slice_subrange(buffer, 10, 10 + seg_count);
        let start_count = slice_subrange(buffer, 12 + seg_count, 12 + 2 * seg_count);
        let id_delta = slice_subrange(buffer, 12 + 2 * seg_count, 12 + 3 * seg_count);
        let id_offset = slice_subrange(buffer, 12 + 3 * seg_count, 12 + 4 * seg_count);
        let glyph_ids = slice_subrange(buffer, 12 + 4 * seg_count, buffer.len());
        Ok(Format4 { language, end_count, start_count, id_delta, id_offset, glyph_ids })
    }
}

/// Scanning lands on `i` when every even position before it ends below `c`
/// and `i` ends at or above `c`.
proof fn lemma_f4_find_lands(end: Seq<u8>, c: u16, k: int, i: int)
    requires
        0 <= k <= i,
        i + 2 <= end.len(),
        k % 2 == 0,
        i % 2 == 0,
        forall|j: int| k <= j < i && j % 2 == 0 ==> #[trigger] spec_be_u16_at(end, j) < c,
        spec_be_u16_at(end, i) >= c,
    ensures
        spec_f4_find(end, c, k) == Some(i),
    decreases i - k,
{
    if k < i {
        assert(spec_be_u16_at(end, k) < c);
        lemma_f4_find_lands(end, c, k + 2, i);
    }
}

/// Segment-mapping law: for a codepoint below 0xFFFE, if segment `i` is the
/// first whose end code reaches the codepoint (every earlier segment ends
/// below it, as the format's ascending end-code order guarantees for a
/// covered codepoint), then: a codepoint below the segment's start code lies
/// in a gap and has no mapping, and with a zero id range offset the mapping
/// is exactly `(codepoint + id_delta) mod 65536`.
pub proof fn lemma_format4_segment_lookup(
    end: Seq<u8>,
    start: Seq<u8>,
    delta: Seq<u8>,
    idoff: Seq<u8>,
    gids: Seq<u8>,
    i: int,
    codepoint: u32,
)
    requires
        codepoint < 0xFFFE,
        0 <= i,
        i % 2 == 0,
        i + 2 <= end.len(),
        forall|j: int| 0 <= j < i && j % 2 == 0 ==> #[trigger] spec_be_u16_at(end, j)
            < codepoint as u16,
        spec_be_u16_at(end, i) >= codepoint as u16,
    ensures
        spec_be_u16_at(start, i) > codepoint as u16 ==> spec_format4_lookup(
            end,
            start,
            delta,
            idoff,
            gids,
            codepoint,
        ) is None,
        (spec_be_u16_at(start, i) <= codepoint as u16 && spec_be_u16_at(idoff, i) == 0)
            ==> spec_format4_lookup(end, start, delta, idoff, gids, codepoint) == Some(
            (((codepoint as u16) as int + (spec_be_u16_at(delta, i) as int)) % 0x10000) as u16,
        ),
{
    lemma_f4_find_lands(end, codepoint as u16, 0, i);
}

/// Reserved-codepoint law: codepoints at or above 0xFFFE never map.
pub proof fn lemma_format4_reserved_unmapped(
    end: Seq<u8>,
    start: Seq<u8>,
    delta: Seq<u8>,
    idoff: Seq<u8>,
    gids: Seq<u8>,
    codepoint: u32,
)
    requires
        codepoint >= 0xFFFE,
    ensures
        spec_format4_lookup(end, start, delta, idoff, gids, codepoint) is None,
{
}

// ---------------------------------------------------------------------------
// Format 6: trimmed table mapping
// ---------------------------------------------------------------------------
/// The error format 6 parsing reports on a subtable body, or `None`.
pub open spec fn spec_format6_err(s: Seq<u8>) -> Option<Error> {
    if s.len() < 6 {
        Some(Error::UnexpectedEof)
    } else if s.len() < 6 + 2 * (spec_be_u16_at(s, 4) as int) {
        Some(Error::UnexpectedEof)
    } else {
        None
    }
}

/// Relates a format 6 subtable body to its parsed fields: language, first
/// covered codepoint, and the glyph-id array of `entryCount` entries.
pub open spec fn spec_format6_parses(s: Seq<u8>, f: Format6) -> bool {
    &&& f.spec_language() == spec_be_u16_at(s, 0)
    &&& f.spec_first_code() == spec_be_u16_at(s, 2)
    &&& f.spec_gids() == s.subrange(6, 6 + 2 * (spec_be_u16_at(s, 4) as int))
}

/// The format 6 lookup: direct indexing of the trimmed array, `None` below
/// `first_code` or past the array's end.
pub open spec fn spec_format6_lookup(first_code: u16, gids: Seq<u8>, codepoint: u32) -> Option<
    u16,
> {
    if codepoint < first_code {
        None
    } else {
        let off = 2 * ((codepoint as int) - (first_code as int));
        if off + 2 <= gids.len() {
            Some(spec_be_u16_at(gids, off))
        } else {
            None
        }
    }
}

/// A format 6 (trimmed array) subtable.
#[derive(Debug)]
pub struct Format6<'tbl> {
    language: u16,
    first_code: u16,
    glyph_id_array: &'tbl [u8],
}

impl<'tbl> Format6<'tbl> {
    /// The language field.
    pub closed spec fn spec_language(self) -> u16 {
        self.language
    }

    /// The first covered codepoint.
    pub closed spec fn spec_first_code(self) -> u16 {
        self.first_code
    }

    /// The glyph-id array.
    pub closed spec fn spec_gids(self) -> Seq<u8> {
        self.glyph_id_array@
    }

    /// Looks up the glyph id of `codepoint` by direct indexing.
    pub fn get_glyph_id(&self, codepoint: u32) -> (r: Option<u16>)
        ensures
            r == spec_format6_lookup(self.spec_first_code(), self.spec_gids(), codepoint),
    {
        if codepoint < self.first_code as u32 {
            return None;
        }
        let off64: u64 = 2 * ((codepoint - self.first_code as u32) as u64);
        if off64 + 2 > self.glyph_id_array.len() as u64 {
            None
        } else {
            Some(read_u16_at(self.glyph_id_array, off64 as usize))
        }
    }
}

impl<'tbl> Table<'tbl> for Format6<'tbl> {
    open spec fn spec_min_size() -> nat {
        6
    }

    open spec fn spec_parses(s: Seq<u8>, v: Self) -> bool {
        spec_format6_parses(s, v)
    }

    open spec fn spec_parse_err(s: Seq<u8>) -> Option<Error> {
        spec_format6_err(s)
    }

    proof fn lemma_short_input_eof(s: Seq<u8>) {
    }

    fn parse(buffer: &'tbl [u8]) -> Result<Self, Error> {
        if buffer.len() < 6 {
            return Err(Error::UnexpectedEof);
        }
        let language = read_u16_at(buffer, 0);
        let first_code = read_u16_at(buffer, 2);
        let entry_count = read_u16_at(buffer, 4) as usize;
        if buffer.len() - 6 < 2 * entry_count {
            return Err(Error::UnexpectedEof);
        }
        let glyph_id_array = slice_subrange(buffer, 6, 6 + 2 * entry_count);
        Ok(Format6 { language, first_code, glyph_id_array })
    }
}

// ---------------------------------------------------------------------------
// Format 12: segmented coverage
// ---------------------------------------------------------------------------
/// The error format 12 parsing reports on a subtable body, or `None`.
pub open spec fn spec_format12_err(s: Seq<u8>) -> Option<Error> {
    if s.len() < 12 {
        Some(Error::UnexpectedEof)
    } else if s.len() < 12 + 12 * (spec_be_u32_at(s, 8) as int) {
        Some(Error::UnexpectedEof)
    } else {
        None
    }
}

/// Relates a format 12 subtable body to its parsed fields: the (skipped)
/// length, the language, and `numGroups` sequential map groups of 12 bytes.
pub open spec fn spec_format12_parses(s: Seq<u8>, f: Format12) -> bool {
    &&& f.spec_language() == spec_be_u32_at(s, 4)
    &&& f.spec_groups() == s.subrange(12, 12 + 12 * (spec_be_u32_at(s, 8) as int))
}

/// The glyph id a sequential map group assigns to a codepoint it contains:
/// `start_glyph_id + (codepoint - start_char_code)`, truncated to 16 bits.
pub open spec fn spec_group_glyph(start_glyph_id: u32, start_char_code: u32, codepoint: u32) -> u16 {
    (((start_glyph_id as int) + ((codepoint as int) - (start_char_code as int))) % 0x10000) as u16
}

/// The format 12 lookup: scan the groups in order from group `k`; the first
/// group containing the codepoint maps it.
pub open spec fn spec_f12_lookup(groups: Seq<u8>, codepoint: u32, k: int) -> Option<u16>
    decreases groups.len() - 12 * k,
{
    if k < 0 || 12 * k + 12 > groups.len() {
        None
    } else if spec_be_u32_at(groups, 12 * k) <= codepoint && codepoint <= spec_be_u32_at(
        groups,
        12 * k + 4,
    ) {
        Some(spec_group_glyph(spec_be_u32_at(groups, 12 * k + 8), spec_be_u32_at(groups, 12 * k), codepoint))
    } else {
        spec_f12_lookup(groups, codepoint, k + 1)
    }
}

/// A format 12 (segmented coverage) subtable: the raw group region, 12
/// bytes per group.
#[derive(Debug)]
pub struct Format12<'tbl> {
    language: u32,
    groups: &'tbl [u8],
}

impl<'tbl> Format12<'tbl> {
    #[verifier::type_invariant]
    spec fn type_wf(self) -> bool {
        self.groups@.len() % 12 == 0
    }

    /// The language field.
    pub closed spec fn spec_language(self) -> u32 {
        self.language
    }

    /// The raw group region.
    pub closed spec fn spec_groups(self) -> Seq<u8> {
        self.groups@
    }

    /// Looks up the glyph id of `codepoint` by scanning the groups in order.
    pub fn get_glyph_id(&self, codepoint: u32) -> (r: Option<u16>)
        ensures
            r == spec_f12_lookup(self.spec_groups(), codepoint, 0),
    {
        proof {
            use_type_invariant(&*self);
        }
        let total: usize = self.groups.len();
        let n: usize = total / 12;
        let mut k: usize = 0;
        loop
            invariant
                total == self.groups@.len(),
                total % 12 == 0,
                n == total / 12,
                0 <= k <= n,
                spec_f12_lookup(self.groups@, codepoint, 0) == spec_f12_lookup(
                    self.groups@,
                    codepoint,
                    k as int,
                ),
            decreases n - k,
        {
            if k >= n {
                return None;
            }
            let window = slice_subrange(self.groups, 12 * k, 12 * k + 12);
            let seq_map = match SequentialMapGroup::parse(window) {
                Ok(g) => g,
                Err(_) => {
                    proof {
                        assert(false);
                    }
                    return None;
                },
            };
            proof {
                assert(spec_be_u32_at(window@, 0) == spec_be_u32_at(self.groups@, 12 * k as int));
                assert(spec_be_u32_at(window@, 4) == spec_be_u32_at(
                    self.groups@,
                    12 * k as int + 4,
                ));
                assert(spec_be_u32_at(window@, 8) == spec_be_u32_at(
                    self.groups@,
                    12 * k as int + 8,
                ));
            }
            if let Some(id) = seq_map.get_glyph_id(codepoint) {
                return Some(id);
            }
            k = k + 1;
        }
    }
}

impl<'tbl> Table<'tbl> for Format12<'tbl> {
    open spec fn spec_min_size() -> nat {
        12
    }

    open spec fn spec_parses(s: Seq<u8>, v: Self) -> bool {
        spec_format12_parses(s, v)
    }

    open spec fn spec_parse_err(s: Seq<u8>) -> Option<Error> {
        spec_format12_err(s)
    }

    proof fn lemma_short_input_eof(s: Seq<u8>) {
    }

    fn parse(buffer: &'tbl [u8]) -> Result<Self, Error> {
        if buffer.len() < 12 {
            return Err(Error::UnexpectedEof);
        }
        let _length = read_u32_at(buffer, 0);
        let language = read_u32_at(buffer, 4);
        let num_groups = read_u32_at(buffer, 8);
        if ((buffer.len() - 12) as u64) < 12 * (num_groups as u64) {
            return Err(Error::UnexpectedEof);
        }
        let size: usize = 12 * (num_groups as usize);
        let groups = slice_subrange(buffer, 12, 12 + size);
        Ok(Format12 { language, groups })
    }
}

/// First-containing-group law: when group `k` contains the codepoint and no
/// earlier group does, the format 12 lookup applies the group formula to
/// group `k` — the same formula every group uses.
pub proof fn lemma_format12_group_lookup(groups: Seq<u8>, codepoint: u32, k: int)
    requires
        0 <= k,
        12 * k + 12 <= groups.len(),
        spec_be_u32_at(groups, 12 * k) <= codepoint <= spec_be_u32_at(groups, 12 * k + 4),
        forall|j: int|
            0 <= j < k ==> !(#[trigger] spec_be_u32_at(groups, 12 * j) <= codepoint
                && codepoint <= spec_be_u32_at(groups, 12 * j + 4)),
    ensures
        spec_f12_lookup(groups, codepoint, 0) == Some(
            spec_group_glyph(
                spec_be_u32_at(groups, 12 * k + 8),
                spec_be_u32_at(groups, 12 * k),
                codepoint,
            ),
        ),
{
    lemma_f12_lookup_lands(groups, codepoint, 0, k);
}

proof fn lemma_f12_lookup_lands(groups: Seq<u8>, codepoint: u32, j: int, k: int)
    requires
        0 <= j <= k,
        12 * k + 12 <= groups.len(),
        spec_be_u32_at(groups, 12 * k) <= codepoint <= spec_be_u32_at(groups, 12 * k + 4),
        forall|l: int|
            j <= l < k ==> !(#[trigger] spec_be_u32_at(groups, 12 * l) <= codepoint
                && codepoint <= spec_be_u32_at(groups, 12 * l + 4)),
    ensures
        spec_f12_lookup(groups, codepoint, j) == Some(
            spec_group_glyph(
                spec_be_u32_at(groups, 12 * k + 8),
                spec_be_u32_at(groups, 12 * k),
                codepoint,
            ),
        ),
    decreases k - j,
{
    if j < k {
        lemma_f12_lookup_lands(groups, codepoint, j + 1, k);
    }
}

/// One sequential map group of a format 12 subtable: an inclusive codepoint
/// range and the glyph id of its first codepoint.
#[derive(Debug, Clone, Copy, PartialEq, Eq, Structural)]
pub struct SequentialMapGroup {
    pub start_char_code: u32,
    pub end_char_code: u32,
    pub start_glyph_id: u32,
}

impl SizedTable for SequentialMapGroup {
    open spec fn spec_size() -> nat {
        12
    }

    fn size() -> usize {
        12
    }
}

impl<'tbl> Table<'tbl> for SequentialMapGroup {
    open spec fn spec_min_size() -> nat {
        12
    }

    open spec fn spec_parses(s: Seq<u8>, v: Self) -> bool {
        &&& v.start_char_code == spec_be_u32_at(s, 0)
        &&& v.end_char_code == spec_be_u32_at(s, 4)
        &&& v.start_glyph_id == spec_be_u32_at(s, 8)
    }

    open spec fn spec_parse_err(s: Seq<u8>) -> Option<Error> {
        if s.len() < 12 {
            Some(Error::UnexpectedEof)
        } else {
            None
        }
    }

    proof fn lemma_short_input_eof(s: Seq<u8>) {
    }

    fn parse(buffer: &'tbl [u8]) -> Result<Self, Error> {
        if buffer.len() < 12 {
            return Err(Error::UnexpectedEof);
        }
        Ok(
            SequentialMapGroup {
                start_char_code: read_u32_at(buffer, 0),
                end_char_code: read_u32_at(buffer, 4),
                start_glyph_id: read_u32_at(buffer, 8),
            },
        )
    }
}

impl SequentialMapGroup {
    /// Containment law: a group contains `codepoint` exactly when
    /// `start_char_code <= codepoint <= end_char_code`.
    pub fn contains(&self, codepoint: u32) -> (r: bool)
        ensures
            r == (self.start_char_code <= codepoint && codepoint <= self.end_char_code),
    {
        self.start_char_code <= codepoint && codepoint <= self.end_char_code
    }

    /// The group's mapping: the group formula for a contained codepoint,
    /// `None` otherwise.
    pub fn get_glyph_id(&self, codepoint: u32) -> (r: Option<u16>)
        ensures
            r == if self.start_char_code <= codepoint && codepoint <= self.end_char_code {
                Some(spec_group_glyph(self.start_glyph_id, self.start_char_code, codepoint))
            } else {
                None::<u16>
            },
    {
        if self.contains(codepoint) {
            let diff: u64 = (codepoint - self.start_char_code) as u64;
            Some((((self.start_glyph_id as u64) + diff) % 0x10000) as u16)
        } else {
            None
        }
    }
}

// ---------------------------------------------------------------------------
// Subtable dispatch
// ---------------------------------------------------------------------------
/// A resolved cmap subtable, one variant per supported format.
#[derive(Debug)]
pub enum Cmap<'a> {
    Format4(Format4<'a>),
    Format6(Format6<'a>),
    Format12(Format12<'a>),
}

impl<'a> Cmap<'a> {
    /// The format number of the resolved subtable.
    pub open spec fn spec_format(self) -> usize {
        match self {
            Cmap::Format4(_) => 4,
            Cmap::Format6(_) => 6,
            Cmap::Format12(_) => 12,
        }
    }

    /// The glyph id this subtable assigns to `codepoint`, per its format's
    /// lookup rule.
    pub open spec fn spec_get_glyph_id(self, codepoint: u32) -> Option<u16> {
        match self {
            Cmap::Format4(cm) => spec_format4_lookup(
                cm.spec_end(),
                cm.spec_start(),
                cm.spec_delta(),
                cm.spec_idoff(),
                cm.spec_gids(),
                codepoint,
            ),
            Cmap::Format6(cm) => spec_format6_lookup(
                cm.spec_first_code(),
                cm.spec_gids(),
                codepoint,
            ),
            Cmap::Format12(cm) => spec_f12_lookup(cm.spec_groups(), codepoint, 0),
        }
    }

    /// The format number (4, 6 or 12).
    pub fn format(&self) -> (r: usize)
        ensures
            r == self.spec_format(),
    {
        match *self {
            Cmap::Format4(_) => 4,
            Cmap::Format6(_) => 6,
            Cmap::Format12(_) => 12,
        }
    }

    /// Looks up `codepoint` in the subtable.
    pub fn get_glyph_id(&self, codepoint: u32) -> (r: Option<u16>)
        ensures
            r == self.spec_get_glyph_id(codepoint),
    {
        match self {
            Cmap::Format4(cm) => cm.get_glyph_id(codepoint),
            Cmap::Format6(cm) => cm.get_glyph_id(codepoint),
            Cmap::Format12(cm) => cm.get_glyph_id(codepoint),
        }
    }
}

/// The error resolving the subtable at table-relative offset `off` of cmap
/// table `s` reports, or `None` when resolution succeeds: the 4-byte
/// format/length prefix must lie inside the table, the format must be one of
/// {4, 6, 12}, and the format's own parse must succeed on the rest.
pub open spec fn spec_subtable_err(s: Seq<u8>, off: int) -> Option<Error> {
    if s.len() < off + 4 {
        Some(Error::UnexpectedEof)
    } else {
        let f = spec_be_u16_at(s, off);
        let body = s.skip(off + 4);
        if f == 4 {
            spec_format4_err(body)
        } else if f == 6 {
            spec_format6_err(body)
        } else if f == 12 {
            spec_format12_err(body)
        } else {
            Some(Error::UnsupportedCmapFormat)
        }
    }
}

/// Relates the subtable resolved at offset `off` of cmap table `s` to the
/// parsed variant.
pub open spec fn spec_subtable_parses(s: Seq<u8>, off: int, c: Cmap) -> bool {
    &&& s.len() >= off + 4
    &&& ({
        let f = spec_be_u16_at(s, off);
        let body = s.skip(off + 4);
        match c {
            Cmap::Format4(v) => f == 4 && spec_format4_parses(body, v),
            Cmap::Format6(v) => f == 6 && spec_format6_parses(body, v),
            Cmap::Format12(v) => f == 12 && spec_format12_parses(body, v),
        }
    })
}

// ---------------------------------------------------------------------------
// Header and encoding records
// ---------------------------------------------------------------------------
/// The `cmap` table header: a (reserved) version and the subtable count,
/// followed by 8-byte encoding records.
#[derive(Debug)]
pub struct CmapHeader<'tbl> {
    buffer: &'tbl [u8],
    version: Ignored<u16>,
    pub num_tables: u16,
}

/// The index of the first encoding record (starting from `k`, out of `n`)
/// with the given platform and encoding ids.
pub open spec fn spec_find_encoding(s: Seq<u8>, n: int, platform: u16, encoding: u16, k: int) -> Option<int>
    decreases n - k,
{
    if k >= n {
        None
    } else if spec_be_u16_at(s, 4 + 8 * k) == platform && spec_be_u16_at(s, 4 + 8 * k + 2)
        == encoding {
        Some(k)
    } else {
        spec_find_encoding(s, n, platform, encoding, k + 1)
    }
}

/// What [`CmapHeader::get_cmap_with`] returns on cmap table `s` with `n`
/// records: the parsed subtable of the first record matching the platform
/// and encoding, or `None` when the records do not fit the table, no record
/// matches, or that record's subtable does not resolve.
pub open spec fn spec_cmap_with<'a>(
    s: Seq<u8>,
    n: int,
    platform: u16,
    encoding: u16,
    r: Option<Cmap<'a>>,
) -> bool {
    if s.len() < 4 + 8 * n {
        r is None
    } else {
        match spec_find_encoding(s, n, platform, encoding, 0) {
            None => r is None,
            Some(k) => {
                let off = spec_be_u32_at(s, 4 + 8 * k + 4) as int;
                if spec_subtable_err(s, off) is None {
                    r matches Some(c) && spec_subtable_parses(s, off, c)
                } else {
                    r is None
                }
            },
        }
    }
}

/// Whether a `(platform, encoding)` pair resolves on cmap table `s`: its
/// record exists and its subtable parses.
pub open spec fn spec_lookup_ok(s: Seq<u8>, n: int, platform: u16, encoding: u16) -> bool {
    &&& s.len() >= 4 + 8 * n
    &&& match spec_find_encoding(s, n, platform, encoding, 0) {
        Some(k) => spec_subtable_err(s, spec_be_u32_at(s, 4 + 8 * k + 4) as int) is None,
        None => false,
    }
}

/// The `(platform, encoding)` pair the default-subtable selection settles
/// on: the first resolvable pair of the fixed priority list — 32-bit
/// Unicode subtables first, then 16-bit, then legacy.
pub open spec fn spec_default_choice(s: Seq<u8>, n: int) -> Option<(u16, u16)> {
    if spec_lookup_ok(s, n, 3, 10) {
        Some((3u16, 10u16))
    } else if spec_lookup_ok(s, n, 0, 6) {
        Some((0u16, 6u16))
    } else if spec_lookup_ok(s, n, 0, 4) {
        Some((0u16, 4u16))
    } else if spec_lookup_ok(s, n, 3, 1) {
        Some((3u16, 1u16))
    } else if spec_lookup_ok(s, n, 0, 3) {
        Some((0u16, 3u16))
    } else if spec_lookup_ok(s, n, 0, 2) {
        Some((0u16, 2u16))
    } else if spec_lookup_ok(s, n, 0, 1) {
        Some((0u16, 1u16))
    } else if spec_lookup_ok(s, n, 0, 0) {
        Some((0u16, 0u16))
    } else {
        None
    }
}

/// Priority law: whenever the (3, 10) full-Unicode pair resolves, the
/// default selection is (3, 10) — never a lower-priority pair such as
/// (0, 0), whatever else the table holds.
pub proof fn lemma_default_prefers_unicode_full(s: Seq<u8>, n: int)
    requires
        spec_lookup_ok(s, n, 3, 10),
    ensures
        spec_default_choice(s, n) == Some((3u16, 10u16)),
{
}

impl<'tbl> CmapHeader<'tbl> {
    /// The bytes of the whole cmap table region.
    pub closed spec fn spec_table(self) -> Seq<u8> {
        self.buffer@
    }

    /// The subtable count field.
    pub closed spec fn spec_num_tables(self) -> u16 {
        self.num_tables
    }

    /// A cursor over the encoding records, checked up front to lie inside
    /// the table.  Each record keeps a view of the whole cmap table, since
    /// subtable offsets are table-relative.
    pub fn records(&self) -> (r: Result<RecordIter<'tbl>, Error>)
        ensures
            ({
                let s = self.spec_table();
                let n = self.spec_num_tables() as int;
                match r {
                    Ok(it) => {
                        &&& s.len() >= 4 + 8 * n
                        &&& it.spec_table() == s
                        &&& it.spec_pos() == 0
                        &&& it.spec_max() == n
                    },
                    Err(e) => e == Error::UnexpectedEof && s.len() < 4 + 8 * n,
                }
            }),
    {
        let required = 4 + 8 * (self.num_tables as usize);
        if self.buffer.len() < required {
            return Err(Error::UnexpectedEof);
        }
        Ok(RecordIter { inherited: self.buffer, num_tables: self.num_tables, current: 0 })
    }

    /// Resolves the subtable of the first record with the given platform
    /// and encoding ids; `None` when nothing matches or resolving fails.
    pub fn get_cmap_with(&self, platform: u16, encoding: u16) -> (r: Option<Cmap<'tbl>>)
        ensures
            spec_cmap_with(self.spec_table(), self.spec_num_tables() as int, platform, encoding, r),
    {
        let ghost s = self.spec_table();
        let ghost n = self.spec_num_tables() as int;
        let mut recs = match self.records() {
            Err(_) => {
                return None;
            },
            Ok(recs) => recs,
        };
        loop
            invariant
                s == self.spec_table(),
                n == self.spec_num_tables() as int,
                recs.spec_table() == s,
                recs.spec_max() == n,
                0 <= recs.spec_pos() <= n,
                s.len() >= 4 + 8 * n,
                spec_find_encoding(s, n, platform, encoding, 0) == spec_find_encoding(
                    s,
                    n,
                    platform,
                    encoding,
                    recs.spec_pos(),
                ),
            decreases n - recs.spec_pos(),
        {
            let ghost pos = recs.spec_pos();
            match recs.next() {
                None => {
                    proof {
                        assert(spec_find_encoding(s, n, platform, encoding, pos) is None);
                    }
                    return None;
                },
                Some(rec) => {
                    if rec.platform == platform && rec.encoding == encoding {
                        proof {
                            assert(spec_find_encoding(s, n, platform, encoding, pos) == Some(pos));
                        }
                        return match rec.get_cmap() {
                            Ok(c) => Some(c),
                            Err(_) => None,
                        };
                    }
                    proof {
                        assert(spec_find_encoding(s, n, platform, encoding, pos)
                            == spec_find_encoding(s, n, platform, encoding, pos + 1));
                    }
                },
            }
        }
    }

    /// Resolves the default subtable: the first resolvable pair of the
    /// fixed priority order (3,10), (0,6), (0,4), (3,1), (0,3), (0,2),
    /// (0,1), (0,0).  `None` when none resolves — an absent default is not
    /// an error.
    pub fn get_default_cmap(&self) -> (r: Option<Cmap<'tbl>>)
        ensures
            ({
                let s = self.spec_table();
                let n = self.spec_num_tables() as int;
                match spec_default_choice(s, n) {
                    Some(pe) => r is Some && spec_cmap_with(s, n, pe.0, pe.1, r),
                    None => r is None,
                }
            }),
    {
        let ghost s = self.spec_table();
        let ghost n = self.spec_num_tables() as int;
        // 32-bit subtables.
        match self.get_cmap_with(3, 10) {
            Some(cmap) => {
                return Some(cmap);
            },
            None => {},
        }
        match self.get_cmap_with(0, 6) {
            Some(cmap) => {
                return Some(cmap);
            },
            None => {},
        }
        match self.get_cmap_with(0, 4) {
            Some(cmap) => {
                return Some(cmap);
            },
            None => {},
        }
        // 16-bit subtables.
        match self.get_cmap_with(3, 1) {
            Some(cmap) => {
                return Some(cmap);
            },
            None => {},
        }
        match self.get_cmap_with(0, 3) {
            Some(cmap) => {
                return Some(cmap);
            },
            None => {},
        }
        match self.get_cmap_with(0, 2) {
            Some(cmap) => {
                return Some(cmap);
            },
            None => {},
        }
        match self.get_cmap_with(0, 1) {
            Some(cmap) => {
                return Some(cmap);
            },
            None => {},
        }
        match self.get_cmap_with(0, 0) {
            Some(cmap) => {
                return Some(cmap);
            },
            None => {},
        }
        None
    }
}

impl<'tbl> Table<'tbl> for CmapHeader<'tbl> {
    open spec fn spec_min_size() -> nat {
        4
    }

    open spec fn spec_parses(s: Seq<u8>, v: Self) -> bool {
        &&& v.spec_table() == s
        &&& v.spec_num_tables() == spec_be_u16_at(s, 2)
    }

    open spec fn spec_parse_err(s: Seq<u8>) -> Option<Error> {
        if s.len() < 4 {
            Some(Error::UnexpectedEof)
        } else {
            None
        }
    }

    proof fn lemma_short_input_eof(s: Seq<u8>) {
    }

    fn parse(buffer: &'tbl [u8]) -> Result<Self, Error> {
        if buffer.len() < 4 {
            return Err(Error::UnexpectedEof);
        }
        let mut buf = buffer;
        let version = buf.read::<Ignored<u16>>()?;
        let num_tables = buf.read::<u16>()?;
        Ok(CmapHeader { buffer, version, num_tables })
    }
}

impl<'tbl> TaggedTable<'tbl> for CmapHeader<'tbl> {
    open spec fn spec_tag() -> Seq<u8> {
        seq![0x63u8, 0x6Du8, 0x61u8, 0x70u8]  // "cmap"

    }

    fn tag() -> (r: Tag) {
        let r = Tag([0x63, 0x6D, 0x61, 0x70]);
        proof {
            assert(r@ =~= Self::spec_tag());
        }
        r
    }
}

/// A finite cursor over the encoding records; recreate it (via
/// [`CmapHeader::records`]) to restart.
#[derive(Debug)]
pub struct RecordIter<'a> {
    inherited: &'a [u8],
    num_tables: u16,
    current: u16,
}

impl<'a> RecordIter<'a> {
    #[verifier::type_invariant]
    spec fn type_wf(self) -> bool {
        &&& self.inherited@.len() >= 4 + 8 * (self.num_tables as int)
        &&& self.current <= self.num_tables
    }

    /// The bytes of the whole cmap table region.
    pub closed spec fn spec_table(self) -> Seq<u8> {
        self.inherited@
    }

    /// How many records have been handed out.
    pub closed spec fn spec_pos(self) -> int {
        self.current as int
    }

    /// The table's record count.
    pub closed spec fn spec_max(self) -> int {
        self.num_tables as int
    }

    /// The next encoding record, or `None` when all records have been
    /// produced.  Record `k` occupies bytes `4 + 8k .. 12 + 8k` of the
    /// table: platform id, encoding id, then the table-relative offset.
    pub fn next(&mut self) -> (r: Option<EncodingRecord<'a>>)
        ensures
            final(self).spec_table() == old(self).spec_table(),
            final(self).spec_max() == old(self).spec_max(),
            if old(self).spec_pos() >= old(self).spec_max() {
                r is None && final(self).spec_pos() == old(self).spec_pos()
            } else {
                &&& final(self).spec_pos() == old(self).spec_pos() + 1
                &&& match r {
                    Some(rec) => {
                        let s = old(self).spec_table();
                        let k = old(self).spec_pos();
                        &&& rec.spec_table() == s
                        &&& rec.spec_platform() == spec_be_u16_at(s, 4 + 8 * k)
                        &&& rec.spec_encoding() == spec_be_u16_at(s, 4 + 8 * k + 2)
                        &&& rec.spec_offset() == spec_be_u32_at(s, 4 + 8 * k + 4)
                    },
                    None => false,
                }
            },
    {
        proof {
            use_type_invariant(&*self);
        }
        if self.current >= self.num_tables {
            return None;
        }
        let ghost s = self.inherited@;
        let ghost k = self.current as int;
        let base: usize = 4 + 8 * (self.current as usize);
        let window = slice_subrange(self.inherited, base, base + 8);
        self.current = self.current + 1;
        let record = match EncodingRecord::parse(window, self.inherited) {
            Ok(rec) => rec,
            Err(_) => {
                proof {
                    assert(false);
                }
                return None;
            },
        };
        proof {
            assert(spec_be_u16_at(window@, 0) == spec_be_u16_at(s, 4 + 8 * k));
            assert(spec_be_u16_at(window@, 2) == spec_be_u16_at(s, 4 + 8 * k + 2));
            assert(spec_be_u32_at(window@, 4) == spec_be_u32_at(s, 4 + 8 * k + 4));
        }
        Some(record)
    }
}

/// One encoding record: platform and encoding ids and the subtable offset,
/// together with a view of the whole cmap table the offset is relative to.
#[derive(Debug)]
pub struct EncodingRecord<'tbl> {
    buffer: &'tbl [u8],
    pub platform: u16,
    pub encoding: u16,
    pub offset: u32,
}

impl<'tbl> SizedTable for EncodingRecord<'tbl> {
    open spec fn spec_size() -> nat {
        8
    }

    fn size() -> usize {
        8
    }
}

impl<'tbl> EncodingRecord<'tbl> {
    /// The bytes of the whole cmap table region.
    pub closed spec fn spec_table(self) -> Seq<u8> {
        self.buffer@
    }

    /// The platform id field.
    pub closed spec fn spec_platform(self) -> u16 {
        self.platform
    }

    /// The encoding id field.
    pub closed spec fn spec_encoding(self) -> u16 {
        self.encoding
    }

    /// The table-relative subtable offset field.
    pub closed spec fn spec_offset(self) -> u32 {
        self.offset
    }

    /// Decodes one 8-byte encoding record from the front of `buffer`;
    /// `inherited` is the whole cmap table, kept because the record's
    /// offset is relative to it.
    pub fn parse(buffer: &'tbl [u8], inherited: &'tbl [u8]) -> (r: Result<
        EncodingRecord<'tbl>,
        Error,
    >)
        ensures
            match r {
                Ok(rec) => {
                    &&& buffer@.len() >= 8
                    &&& rec.spec_table() == inherited@
                    &&& rec.spec_platform() == spec_be_u16_at(buffer@, 0)
                    &&& rec.spec_encoding() == spec_be_u16_at(buffer@, 2)
                    &&& rec.spec_offset() == spec_be_u32_at(buffer@, 4)
                },
                Err(e) => e == Error::UnexpectedEof && buffer@.len() < 8,
            },
    {
        if buffer.len() < 8 {
            return Err(Error::UnexpectedEof);
        }
        Ok(
            EncodingRecord {
                buffer: inherited,
                platform: read_u16_at(buffer, 0),
                encoding: read_u16_at(buffer, 2),
                offset: read_u32_at(buffer, 4),
            },
        )
    }

    /// Resolves this record's subtable: checks the 4-byte format/length
    /// prefix lies inside the table, dispatches on the format, and parses
    /// the body.
    pub fn get_cmap(&self) -> (r: Result<Cmap<'tbl>, Error>)
        ensures
            ({
                let s = self.spec_table();
                let off = self.spec_offset() as int;
                match r {
                    Ok(c) => spec_subtable_err(s, off) is None && spec_subtable_parses(s, off, c),
                    Err(e) => spec_subtable_err(s, off) == Some(e),
                }
            }),
    {
        let len = self.buffer.len();
        if len < 4 || (self.offset as usize) > len - 4 {
            return Err(Error::UnexpectedEof);
        }
        let off = self.offset as usize;
        let version = read_u16_at(self.buffer, off);
        let body = slice_subrange(self.buffer, off + 4, len);
        match version {
            4 => Ok(Cmap::Format4(Format4::parse(body)?)),
            6 => Ok(Cmap::Format6(Format6::parse(body)?)),
            12 => Ok(Cmap::Format12(Format12::parse(body)?)),
            _ => Err(Error::UnsupportedCmapFormat),
        }
    }
}

} // verus!
