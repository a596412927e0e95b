//! The font directory: sfnt version detection, the table-record directory
//! and tag-to-table resolution.

use crate::decode::parse::{be_u8_4, read_u32_at, spec_be_u16_at, spec_be_u32_at};
use crate::decode::primitives::{Ignored, Tag};
use crate::decode::{Error, Primitive, ReadPrimitive, SizedTable, Table};
use crate::table::hhea::Hhea;
use crate::table::hmtx::{spec_hmtx_err, spec_hmtx_parses, Hmtx};
use crate::table::maxp::Maxp;
use crate::table::TaggedTable;
use vstd::prelude::*;
use vstd::slice::slice_subrange;

verus! {

/// The sfnt container flavour, decoded from the directory's version tag.
///
/// `OTTO` means OpenType; `0x00010000`, `true` and `typ1` mean TrueType;
/// `ttcf` (a font collection) and anything else are rejected.
#[derive(Debug, Clone, Copy, PartialEq, Eq, Structural)]
pub enum Version {
    OpenType,
    TrueType,
}

/// Whether the four bytes at the start of `s` are `a b c d`.
pub open spec fn spec_tag4_is(s: Seq<u8>, a: u8, b: u8, c: u8, d: u8) -> bool {
    s[0] == a && s[1] == b && s[2] == c && s[3] == d
}

impl Primitive for Version {
    open spec fn spec_size() -> nat {
        4
    }

    open spec fn spec_parses(s: Seq<u8>, v: Self) -> bool {
        match v {
            Version::OpenType => spec_tag4_is(s, 0x4F, 0x54, 0x54, 0x4F),  // "OTTO"
            Version::TrueType => spec_tag4_is(s, 0x00, 0x01, 0x00, 0x00) || spec_tag4_is(
                s,
                0x74,
                0x72,
                0x75,
                0x65,
            )  // "true"
             || spec_tag4_is(s, 0x74, 0x79, 0x70, 0x31),  // "typ1"

        }
    }

    open spec fn spec_parse_err(s: Seq<u8>) -> Option<Error> {
        if spec_tag4_is(s, 0x74, 0x74, 0x63, 0x66) {  // "ttcf"
            Some(Error::TtcfUnsupported)
        } else if spec_tag4_is(s, 0x4F, 0x54, 0x54, 0x4F) || spec_tag4_is(s, 0x00, 0x01, 0x00, 0x00)
            || spec_tag4_is(s, 0x74, 0x72, 0x75, 0x65) || spec_tag4_is(s, 0x74, 0x79, 0x70, 0x31) {
            None
        } else {
            Some(Error::InvalidData)
        }
    }

    fn size() -> usize {
        4
    }

    fn parse(buffer: &[u8]) -> Result<Self, Error> {
        let (b0, b1, b2, b3) = (buffer[0], buffer[1], buffer[2], buffer[3]);
        if b0 == 0x4F && b1 == 0x54 && b2 == 0x54 && b3 == 0x4F {
            Ok(Version::OpenType)
        } else if (b0 == 0x00 && b1 == 0x01 && b2 == 0x00 && b3 == 0x00) || (b0 == 0x74 && b1
            == 0x72 && b2 == 0x75 && b3 == 0x65) || (b0 == 0x74 && b1 == 0x79 && b2 == 0x70 && b3
            == 0x31) {
            Ok(Version::TrueType)
        } else if b0 == 0x74 && b1 == 0x74 && b2 == 0x63 && b3 == 0x66 {
            Err(Error::TtcfUnsupported)
        } else {
            Err(Error::InvalidData)
        }
    }
}

/// The fixed 12-byte directory header: version tag, table count and three
/// legacy search hints that are decoded but ignored.
struct OffsetTable {
    sfnt_version: Version,
    num_tables: u16,
    search_range: Ignored<u16>,
    entry_selector: Ignored<u16>,
    range_shift: Ignored<u16>,
}

impl SizedTable for OffsetTable {
    open spec fn spec_size() -> nat {
        12
    }

    fn size() -> usize {
        12
    }
}

impl<'tbl> Table<'tbl> for OffsetTable {
    open spec fn spec_min_size() -> nat {
        12
    }

    closed spec fn spec_parses(s: Seq<u8>, v: Self) -> bool {
        &&& Version::spec_parses(s, v.sfnt_version)
        &&& v.num_tables == spec_be_u16_at(s, 4)
    }

    open spec fn spec_parse_err(s: Seq<u8>) -> Option<Error> {
        if s.len() < 12 {
            Some(Error::UnexpectedEof)
        } else {
            Version::spec_parse_err(s)
        }
    }

    proof fn lemma_short_input_eof(s: Seq<u8>) {
    }

    fn parse(buffer: &'tbl [u8]) -> Result<Self, Error> {
        if buffer.len() < 12 {
            return Err(Error::UnexpectedEof);
        }
        let mut buf = buffer;
        let sfnt_version = buf.read::<Version>()?;
        let num_tables = buf.read::<u16>()?;
        let search_range = buf.read::<Ignored<u16>>()?;
        let entry_selector = buf.read::<Ignored<u16>>()?;
        let range_shift = buf.read::<Ignored<u16>>()?;
        Ok(OffsetTable { sfnt_version, num_tables, search_range, entry_selector, range_shift })
    }
}

/// One 16-byte directory entry naming a contiguous byte region of the font
/// buffer: tag, stored checksum, file-relative offset and length.
#[derive(Debug, Clone, Copy, PartialEq)]
pub struct TableRecord {
    pub tag: Tag,
    pub check_sum: u32,
    pub offset: u32,
    pub length: u32,
}

impl SizedTable for TableRecord {
    open spec fn spec_size() -> nat {
        16
    }

    fn size() -> usize {
        16
    }
}

impl<'tbl> Table<'tbl> for TableRecord {
    open spec fn spec_min_size() -> nat {
        16
    }

    open spec fn spec_parses(s: Seq<u8>, v: Self) -> bool {
        &&& v.tag@ == s.subrange(0, 4)
        &&& v.check_sum == spec_be_u32_at(s, 4)
        &&& v.offset == spec_be_u32_at(s, 8)
        &&& v.length == spec_be_u32_at(s, 12)
    }

    open spec fn spec_parse_err(s: Seq<u8>) -> Option<Error> {
        if s.len() < 16 {
            Some(Error::UnexpectedEof)
        } else {
            None
        }
    }

    proof fn lemma_short_input_eof(s: Seq<u8>) {
    }

    fn parse(buffer: &'tbl [u8]) -> Result<Self, Error> {
        if buffer.len() < 16 {
            return Err(Error::UnexpectedEof);
        }
        Ok(
            TableRecord {
                tag: Tag(be_u8_4(buffer)),
                check_sum: read_u32_at(buffer, 4),
                offset: read_u32_at(buffer, 8),
                length: read_u32_at(buffer, 12),
            },
        )
    }
}

/// A parsed font: the caller's buffer together with the decoded directory
/// header.  The buffer must outlive every table view derived from it.
#[derive(Debug)]
pub struct Font<'a> {
    buf: &'a [u8],
    version: Version,
    num_tables: u16,
}

/// The 16-byte directory window of record `k` of a font buffer `s`.
pub open spec fn spec_record_window(s: Seq<u8>, k: int) -> Seq<u8> {
    s.subrange(12 + 16 * k, 12 + 16 * k + 16)
}

/// The tag bytes of directory record `k` of a font buffer `s`.
pub open spec fn spec_tag_at(s: Seq<u8>, k: int) -> Seq<u8> {
    s.subrange(12 + 16 * k, 12 + 16 * k + 4)
}

/// The index of the first directory record (starting from `k`, out of `n`)
/// whose tag is `tag`; directories are not guaranteed sorted or duplicate
/// free, so the first occurrence in file order governs.
pub open spec fn spec_find_record(s: Seq<u8>, n: int, tag: Seq<u8>, k: int) -> Option<int>
    decreases n - k,
{
    if k >= n {
        None
    } else if spec_tag_at(s, k) == tag {
        Some(k)
    } else {
        spec_find_record(s, n, tag, k + 1)
    }
}

/// A found record index lies in range and carries the sought tag.
pub proof fn lemma_find_record_range(s: Seq<u8>, n: int, tag: Seq<u8>, k: int)
    requires
        0 <= k,
    ensures
        match spec_find_record(s, n, tag, k) {
            Some(j) => k <= j < n && spec_tag_at(s, j) == tag,
            None => true,
        },
    decreases n - k,
{
    if k < n && spec_tag_at(s, k) != tag {
        lemma_find_record_range(s, n, tag, k + 1);
    }
}

impl<'f> Font<'f> {
    /// The underlying font buffer.
    pub closed spec fn spec_buf(self) -> Seq<u8> {
        self.buf@
    }

    /// The decoded sfnt version.
    pub closed spec fn spec_version(self) -> Version {
        self.version
    }

    /// The table count from the directory header.
    pub closed spec fn spec_num_tables(self) -> u16 {
        self.num_tables
    }

    /// Decodes the directory header of `buf`; the returned font borrows
    /// `buf` and all table views derived from it stay inside `buf`.
    pub fn from_buffer<'b: 'f>(buf: &'b [u8]) -> (r: Result<Font<'f>, Error>)
        ensures
            match r {
                Ok(f) => {
                    &&& f.spec_buf() == buf@
                    &&& buf@.len() >= 12
                    &&& Version::spec_parse_err(buf@) is None
                    &&& Version::spec_parses(buf@, f.spec_version())
                    &&& f.spec_num_tables() == spec_be_u16_at(buf@, 4)
                },
                Err(e) => {
                    if buf@.len() < 12 {
                        e == Error::UnexpectedEof
                    } else {
                        Version::spec_parse_err(buf@) == Some(e)
                    }
                },
            },
    {
        if buf.len() < OffsetTable::size() {
            return Err(Error::UnexpectedEof);
        }
        let offset_table = OffsetTable::parse(buf)?;
        Ok(Font { buf, num_tables: offset_table.num_tables, version: offset_table.sfnt_version })
    }

    /// A cursor over the directory's table records, checked up front to lie
    /// inside the buffer.
    pub fn tables(&self) -> (r: Result<TableIter<'f>, Error>)
        ensures
            ({
                let s = self.spec_buf();
                let n = self.spec_num_tables() as int;
                match r {
                    Ok(it) => {
                        &&& s.len() >= 12 + 16 * n
                        &&& it.spec_buf() == s.skip(12)
                        &&& it.spec_pos() == 0
                        &&& it.spec_max() == n
                    },
                    Err(e) => e == Error::UnexpectedEof && s.len() < 12 + 16 * n,
                }
            }),
    {
        let shift = OffsetTable::size();
        let required_size = shift + TableRecord::size() * (self.num_tables as usize);
        if self.buf.len() < required_size {
            return Err(Error::UnexpectedEof);
        }
        let rest = slice_subrange(self.buf, shift, self.buf.len());
        Ok(TableIter { buf: rest, pos: 0, max: self.num_tables as usize })
    }

    /// Linear scan of the directory for `tag`; the first match governs.
    /// Returns `None` both when the tag is absent and when the directory
    /// itself does not fit the buffer.
    pub fn get_table_record(&self, tag: Tag) -> (r: Option<TableRecord>)
        ensures
            ({
                let s = self.spec_buf();
                let n = self.spec_num_tables() as int;
                if s.len() < 12 + 16 * n {
                    r is None
                } else {
                    match spec_find_record(s, n, tag@, 0) {
                        Some(k) => r matches Some(rec) && TableRecord::spec_parses(
                            spec_record_window(s, k),
                            rec,
                        ),
                        None => r is None,
                    }
                }
            }),
    {
        let ghost s = self.spec_buf();
        let ghost n = self.spec_num_tables() as int;
        let mut tables = match self.tables() {
            Err(_) => {
                return None;
            },
            Ok(tables) => tables,
        };
        loop
            invariant
                s == self.spec_buf(),
                n == self.spec_num_tables() as int,
                tables.spec_buf() == s.skip(12),
                tables.spec_max() == n,
                0 <= tables.spec_pos() <= n,
                s.len() >= 12 + 16 * n,
                spec_find_record(s, n, tag@, 0) == spec_find_record(s, n, tag@, tables.spec_pos()),
            decreases n - tables.spec_pos(),
        {
            let ghost pos = tables.spec_pos();
            match tables.next() {
                None => {
                    proof {
                        assert(spec_find_record(s, n, tag@, pos) is None);
                    }
                    return None;
                },
                Some(rec) => {
                    proof {
                        assert(s.skip(12).subrange(16 * pos, 16 * pos + 16) =~= spec_record_window(
                            s,
                            pos,
                        ));
                        assert(spec_record_window(s, pos).subrange(0, 4) =~= spec_tag_at(s, pos));
                        assert(rec.tag@ == spec_tag_at(s, pos));
                    }
                    if rec.tag == tag {
                        proof {
                            assert(spec_tag_at(s, pos) == tag@);
                            assert(spec_find_record(s, n, tag@, pos) == Some(pos));
                        }
                        return Some(rec);
                    }
                    proof {
                        assert(spec_tag_at(s, pos) != tag@);
                        assert(spec_find_record(s, n, tag@, pos) == spec_find_record(
                            s,
                            n,
                            tag@,
                            pos + 1,
                        ));
                    }
                },
            }
        }
    }

    /// The file-relative byte offset of the table named `tag`, if present.
    pub fn get_table_offset(&self, tag: Tag) -> (r: Option<usize>)
        ensures
            ({
                let s = self.spec_buf();
                let n = self.spec_num_tables() as int;
                if s.len() < 12 + 16 * n {
                    r is None
                } else {
                    match spec_find_record(s, n, tag@, 0) {
                        Some(k) => r == Some(spec_be_u32_at(s, 12 + 16 * k + 8) as usize),
                        None => r is None,
                    }
                }
            }),
    {
        let ghost s = self.spec_buf();
        let ghost n = self.spec_num_tables() as int;
        proof {
            lemma_find_record_range(s, n, tag@, 0);
            if s.len() >= 12 + 16 * n && spec_find_record(s, n, tag@, 0) is Some {
                let k = spec_find_record(s, n, tag@, 0)->Some_0;
                assert(spec_record_window(s, k)[8] == s[12 + 16 * k + 8]);
                assert(spec_be_u32_at(spec_record_window(s, k), 8) == spec_be_u32_at(
                    s,
                    12 + 16 * k + 8,
                ));
            }
        }
        match self.get_table_record(tag) {
            None => None,
            Some(table) => Some(table.offset as usize),
        }
    }

    /// Resolves `T`'s tag in the directory and parses the table at the
    /// record's offset.  A missing tag is the normal `Ok(None)` outcome; a
    /// present but malformed table propagates the decode error, so callers
    /// can tell the two apart.
    pub fn get_table<'tbl, T: TaggedTable<'tbl>>(&'tbl self) -> (r: Result<Option<T>, Error>)
        ensures
            ({
                let s = self.spec_buf();
                let n = self.spec_num_tables() as int;
                if s.len() < 12 + 16 * n {
                    r == Ok::<Option<T>, Error>(None)
                } else {
                    match spec_find_record(s, n, T::spec_tag(), 0) {
                        None => r == Ok::<Option<T>, Error>(None),
                        Some(k) => {
                            let off = spec_be_u32_at(s, 12 + 16 * k + 8) as int;
                            if off > s.len() {
                                r == Err::<Option<T>, Error>(Error::UnexpectedEof)
                            } else {
                                match r {
                                    Ok(Some(v)) => T::spec_parse_err(s.skip(off)) is None
                                        && T::spec_parses(s.skip(off), v),
                                    Ok(None) => false,
                                    Err(e) => T::spec_parse_err(s.skip(off)) == Some(e),
                                }
                            }
                        },
                    }
                }
            }),
    {
        let offset = match self.get_table_offset(T::tag()) {
            Some(offset) => offset,
            None => {
                return Ok(None);
            },
        };
        if offset > self.buf.len() {
            return Err(Error::UnexpectedEof);
        }
        let buf = slice_subrange(self.buf, offset, self.buf.len());
        match T::parse(buf) {
            Ok(tbl) => Ok(Some(tbl)),
            Err(e) => Err(e),
        }
    }
}

/// The byte region that resolving `tag` in the directory of `s` names: the
/// suffix of the font buffer at the found record's offset; `None` when the
/// directory does not fit, the tag is absent, or the offset lies outside
/// the buffer.
pub open spec fn spec_table_suffix(s: Seq<u8>, n: int, tag: Seq<u8>) -> Option<Seq<u8>> {
    if s.len() < 12 + 16 * n {
        None
    } else {
        match spec_find_record(s, n, tag, 0) {
            None => None,
            Some(k) => {
                let off = spec_be_u32_at(s, 12 + 16 * k + 8) as int;
                if off > s.len() {
                    None
                } else {
                    Some(s.skip(off))
                }
            },
        }
    }
}

/// The directory tag of the `hmtx` table.
pub open spec fn spec_hmtx_tag() -> Seq<u8> {
    seq![0x68u8, 0x6Du8, 0x74u8, 0x78u8]  // "hmtx"

}

/// The glyph count the font's `maxp` table declares (the field sits at the
/// same position in both `maxp` versions), if that table resolves and
/// parses.
pub open spec fn spec_font_num_glyphs(s: Seq<u8>, n: int) -> Option<u16> {
    match spec_table_suffix(s, n, Maxp::spec_tag()) {
        None => None,
        Some(t) => if Maxp::spec_parse_err(t) is None {
            Some(spec_be_u16_at(t, 4))
        } else {
            None
        },
    }
}

/// The long-metric count the font's `hhea` table declares, if that table
/// resolves and parses.
pub open spec fn spec_font_num_h_metrics(s: Seq<u8>, n: int) -> Option<u16> {
    match spec_table_suffix(s, n, Hhea::spec_tag()) {
        None => None,
        Some(t) => if t.len() >= 36 {
            Some(spec_be_u16_at(t, 34))
        } else {
            None
        },
    }
}

impl<'f> Font<'f> {
    /// Resolves the `hmtx` table: reads the glyph count from `maxp` and the
    /// long-metric count from `hhea`, then parses the metrics region with
    /// those counts.  `None` when any of the three tables is missing or
    /// malformed.
    pub fn get_table_hmtx(&self) -> (r: Option<Hmtx<'f>>)
        ensures
            ({
                let s = self.spec_buf();
                let n = self.spec_num_tables() as int;
                match (
                    spec_font_num_glyphs(s, n),
                    spec_font_num_h_metrics(s, n),
                    spec_table_suffix(s, n, spec_hmtx_tag()),
                ) {
                    (Some(ng), Some(nh), Some(t)) => {
                        if spec_hmtx_err(t, ng, nh) is None {
                            r matches Some(h) && spec_hmtx_parses(t, ng, nh, h)
                        } else {
                            r is None
                        }
                    },
                    _ => r is None,
                }
            }),
    {
        let ghost s = self.spec_buf();
        let ghost n = self.spec_num_tables() as int;
        let maxp = match self.get_table::<Maxp>() {
            Ok(Some(m)) => m,
            _ => {
                return None;
            },
        };
        let num_glyphs = maxp.num_glyphs();
        proof {
            let k = spec_find_record(s, n, Maxp::spec_tag(), 0)->Some_0;
            let off = spec_be_u32_at(s, 12 + 16 * k + 8) as int;
            let t = s.skip(off);
            assert(spec_table_suffix(s, n, Maxp::spec_tag()) == Some(t));
            match maxp {
                Maxp::Version05 { num_glyphs } => {},
                Maxp::Version1(v1) => {
                    assert(spec_be_u16_at(t.skip(4), 0) == spec_be_u16_at(t, 4));
                },
            }
            assert(spec_font_num_glyphs(s, n) == Some(num_glyphs));
        }
        let hhea = match self.get_table::<Hhea>() {
            Ok(Some(h)) => h,
            _ => {
                return None;
            },
        };
        let num_h_metrics = hhea.number_of_h_metrics;
        proof {
            assert(spec_font_num_h_metrics(s, n) == Some(num_h_metrics));
        }
        let hmtx_tag = Tag([0x68, 0x6D, 0x74, 0x78]);
        proof {
            assert(hmtx_tag@ =~= spec_hmtx_tag());
        }
        let offset = match self.get_table_offset(hmtx_tag) {
            Some(offset) => offset,
            None => {
                return None;
            },
        };
        if offset > self.buf.len() {
            return None;
        }
        let tbl = slice_subrange(self.buf, offset, self.buf.len());
        match Hmtx::parse(tbl, num_glyphs, num_h_metrics) {
            Ok(h) => Some(h),
            Err(_) => None,
        }
    }
}

/// A finite cursor over the directory's table records; recreate it (via
/// [`Font::tables`]) to restart.
pub struct TableIter<'a> {
    buf: &'a [u8],
    pos: usize,
    max: usize,
}

impl<'a> TableIter<'a> {
    #[verifier::type_invariant]
    spec fn type_wf(self) -> bool {
        &&& self.buf@.len() >= 16 * self.max
        &&& self.pos <= self.max
    }

    /// The record region: the font buffer past the directory header.
    pub closed spec fn spec_buf(self) -> Seq<u8> {
        self.buf@
    }

    /// How many records have been handed out.
    pub closed spec fn spec_pos(self) -> int {
        self.pos as int
    }

    /// The directory's table count.
    pub closed spec fn spec_max(self) -> int {
        self.max as int
    }

    /// The next table record, or `None` when all `spec_max()` records have
    /// been produced.  Records are 16 bytes each and were bounds-checked
    /// when the cursor was created, so no re-check happens per record.
    pub fn next(&mut self) -> (r: Option<TableRecord>)
        ensures
            final(self).spec_buf() == old(self).spec_buf(),
            final(self).spec_max() == old(self).spec_max(),
            if old(self).spec_pos() >= old(self).spec_max() {
                r is None && final(self).spec_pos() == old(self).spec_pos()
            } else {
                &&& final(self).spec_pos() == old(self).spec_pos() + 1
                &&& match r {
                    Some(rec) => TableRecord::spec_parses(
                        old(self).spec_buf().subrange(
                            16 * old(self).spec_pos(),
                            16 * old(self).spec_pos() + 16,
                        ),
                        rec,
                    ),
                    None => false,
                }
            },
    {
        proof {
            use_type_invariant(&*self);
        }
        if self.pos >= self.max {
            return None;
        }
        let blen: usize = self.buf.len();
        let window = slice_subrange(self.buf, 16 * self.pos, 16 * self.pos + 16);
        self.pos = self.pos + 1;
        match TableRecord::parse(window) {
            Ok(rec) => Some(rec),
            Err(_) => {
                proof {
                    assert(false);
                }
                None
            },
        }
    }
}

} // verus!
