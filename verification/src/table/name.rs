//! The `name` table: human-readable naming strings.
//!
//! Well-known strings are looked up in the Macintosh platform, Roman
//! encoding, language 0 records only (a documented limitation: other
//! platform/encoding pairs report "not found" rather than decoding wrongly)
//! and decoded through the fixed Macintosh-Roman character mapping.

use crate::decode::parse::{read_u16_at, spec_be_u16_at};
use crate::decode::primitives::Tag;
use crate::decode::{Error, Table};
use crate::table::TaggedTable;
use vstd::prelude::*;
use vstd::slice::slice_subrange;

verus! {

/// The character a Mac-Roman byte decodes to: ASCII below 0x80, the fixed
/// high-half mapping above.
pub open spec fn spec_mac_roman_char(b: u8) -> char {
    if b < 0x80 {
        b as char
    } else {
        match b {
            0x80 => '\u{c4}',
            0x81 => '\u{c5}',
            0x82 => '\u{c7}',
            0x83 => '\u{c9}',
            0x84 => '\u{d1}',
            0x85 => '\u{d6}',
            0x86 => '\u{dc}',
            0x87 => '\u{e1}',
            0x88 => '\u{e0}',
            0x89 => '\u{e2}',
            0x8A => '\u{e4}',
            0x8B => '\u{e3}',
            0x8C => '\u{e5}',
            0x8D => '\u{e7}',
            0x8E => '\u{e9}',
            0x8F => '\u{e8}',
            0x90 => '\u{ea}',
            0x91 => '\u{eb}',
            0x92 => '\u{ed}',
            0x93 => '\u{ec}',
            0x94 => '\u{ee}',
            0x95 => '\u{ef}',
            0x96 => '\u{f1}',
            0x97 => '\u{f3}',
            0x98 => '\u{f2}',
            0x99 => '\u{f4}',
            0x9A => '\u{f6}',
            0x9B => '\u{f5}',
            0x9C => '\u{fa}',
            0x9D => '\u{f9}',
            0x9E => '\u{fb}',
            0x9F => '\u{fc}',
            0xA0 => '\u{2020}',
            0xA1 => '\u{b0}',
            0xA2 => '\u{a2}',
            0xA3 => '\u{a3}',
            0xA4 => '\u{a7}',
            0xA5 => '\u{2022}',
            0xA6 => '\u{b6}',
            0xA7 => '\u{df}',
            0xA8 => '\u{ae}',
            0xA9 => '\u{a9}',
            0xAA => '\u{2122}',
            0xAB => '\u{b4}',
            0xAC => '\u{a8}',
            0xAD => '\u{2260}',
            0xAE => '\u{c6}',
            0xAF => '\u{d8}',
            0xB0 => '\u{221e}',
            0xB1 => '\u{b1}',
            0xB2 => '\u{2264}',
            0xB3 => '\u{2265}',
            0xB4 => '\u{a5}',
            0xB5 => '\u{b5}',
            0xB6 => '\u{2202}',
            0xB7 => '\u{2211}',
            0xB8 => '\u{220f}',
            0xB9 => '\u{3c0}',
            0xBA => '\u{222b}',
            0xBB => '\u{aa}',
            0xBC => '\u{ba}',
            0xBD => '\u{3a9}',
            0xBE => '\u{e6}',
            0xBF => '\u{f8}',
            0xC0 => '\u{bf}',
            0xC1 => '\u{a1}',
            0xC2 => '\u{ac}',
            0xC3 => '\u{221a}',
            0xC4 => '\u{192}',
            0xC5 => '\u{2248}',
            0xC6 => '\u{2206}',
            0xC7 => '\u{ab}',
            0xC8 => '\u{bb}',
            0xC9 => '\u{2026}',
            0xCA => '\u{20}',
            0xCB => '\u{c0}',
            0xCC => '\u{c3}',
            0xCD => '\u{d5}',
            0xCE => '\u{152}',
            0xCF => '\u{153}',
            0xD0 => '\u{2013}',
            0xD1 => '\u{2014}',
            0xD2 => '\u{201c}',
            0xD3 => '\u{201d}',
            0xD4 => '\u{2018}',
            0xD5 => '\u{2019}',
            0xD6 => '\u{f7}',
            0xD7 => '\u{25ca}',
            0xD8 => '\u{ff}',
            0xD9 => '\u{178}',
            0xDA => '\u{2044}',
            0xDB => '\u{20ac}',
            0xDC => '\u{2039}',
            0xDD => '\u{203a}',
            0xDE => '\u{fb01}',
            0xDF => '\u{fb02}',
            0xE0 => '\u{2021}',
            0xE1 => '\u{b7}',
            0xE2 => '\u{201a}',
            0xE3 => '\u{201e}',
            0xE4 => '\u{2030}',
            0xE5 => '\u{c2}',
            0xE6 => '\u{ca}',
            0xE7 => '\u{c1}',
            0xE8 => '\u{cb}',
            0xE9 => '\u{c8}',
            0xEA => '\u{cd}',
            0xEB => '\u{ce}',
            0xEC => '\u{cf}',
            0xED => '\u{cc}',
            0xEE => '\u{d3}',
            0xEF => '\u{d4}',
            0xF0 => '\u{f8ff}',
            0xF1 => '\u{d2}',
            0xF2 => '\u{da}',
            0xF3 => '\u{db}',
            0xF4 => '\u{d9}',
            0xF5 => '\u{131}',
            0xF6 => '\u{2c6}',
            0xF7 => '\u{2dc}',
            0xF8 => '\u{af}',
            0xF9 => '\u{2d8}',
            0xFA => '\u{2d9}',
            0xFB => '\u{2da}',
            0xFC => '\u{b8}',
            0xFD => '\u{2dd}',
            0xFE => '\u{2db}',
            0xFF => '\u{2c7}',
            _ => ' ',
        }
    }
}

/// The text a whole Mac-Roman byte string decodes to.
pub open spec fn spec_mac_roman(s: Seq<u8>) -> Seq<char> {
    s.map_values(|b: u8| spec_mac_roman_char(b))
}

/// Decodes one Mac-Roman byte.
pub fn mac_roman_char(b: u8) -> (r: char)
    ensures
        r == spec_mac_roman_char(b),
{
    if b < 0x80 {
        b as char
    } else {
        match b {
            0x80 => '\u{c4}',
            0x81 => '\u{c5}',
            0x82 => '\u{c7}',
            0x83 => '\u{c9}',
            0x84 => '\u{d1}',
            0x85 => '\u{d6}',
            0x86 => '\u{dc}',
            0x87 => '\u{e1}',
            0x88 => '\u{e0}',
            0x89 => '\u{e2}',
            0x8A => '\u{e4}',
            0x8B => '\u{e3}',
            0x8C => '\u{e5}',
            0x8D => '\u{e7}',
            0x8E => '\u{e9}',
            0x8F => '\u{e8}',
            0x90 => '\u{ea}',
            0x91 => '\u{eb}',
            0x92 => '\u{ed}',
            0x93 => '\u{ec}',
            0x94 => '\u{ee}',
            0x95 => '\u{ef}',
            0x96 => '\u{f1}',
            0x97 => '\u{f3}',
            0x98 => '\u{f2}',
            0x99 => '\u{f4}',
            0x9A => '\u{f6}',
            0x9B => '\u{f5}',
            0x9C => '\u{fa}',
            0x9D => '\u{f9}',
            0x9E => '\u{fb}',
            0x9F => '\u{fc}',
            0xA0 => '\u{2020}',
            0xA1 => '\u{b0}',
            0xA2 => '\u{a2}',
            0xA3 => '\u{a3}',
            0xA4 => '\u{a7}',
            0xA5 => '\u{2022}',
            0xA6 => '\u{b6}',
            0xA7 => '\u{df}',
            0xA8 => '\u{ae}',
            0xA9 => '\u{a9}',
            0xAA => '\u{2122}',
            0xAB => '\u{b4}',
            0xAC => '\u{a8}',
            0xAD => '\u{2260}',
            0xAE => '\u{c6}',
            0xAF => '\u{d8}',
            0xB0 => '\u{221e}',
            0xB1 => '\u{b1}',
            0xB2 => '\u{2264}',
            0xB3 => '\u{2265}',
            0xB4 => '\u{a5}',
            0xB5 => '\u{b5}',
            0xB6 => '\u{2202}',
            0xB7 => '\u{2211}',
            0xB8 => '\u{220f}',
            0xB9 => '\u{3c0}',
            0xBA => '\u{222b}',
            0xBB => '\u{aa}',
            0xBC => '\u{ba}',
            0xBD => '\u{3a9}',
            0xBE => '\u{e6}',
            0xBF => '\u{f8}',
            0xC0 => '\u{bf}',
            0xC1 => '\u{a1}',
            0xC2 => '\u{ac}',
            0xC3 => '\u{221a}',
            0xC4 => '\u{192}',
            0xC5 => '\u{2248}',
            0xC6 => '\u{2206}',
            0xC7 => '\u{ab}',
            0xC8 => '\u{bb}',
            0xC9 => '\u{2026}',
            0xCA => '\u{20}',
            0xCB => '\u{c0}',
            0xCC => '\u{c3}',
            0xCD => '\u{d5}',
            0xCE => '\u{152}',
            0xCF => '\u{153}',
            0xD0 => '\u{2013}',
            0xD1 => '\u{2014}',
            0xD2 => '\u{201c}',
            0xD3 => '\u{201d}',
            0xD4 => '\u{2018}',
            0xD5 => '\u{2019}',
            0xD6 => '\u{f7}',
            0xD7 => '\u{25ca}',
            0xD8 => '\u{ff}',
            0xD9 => '\u{178}',
            0xDA => '\u{2044}',
            0xDB => '\u{20ac}',
            0xDC => '\u{2039}',
            0xDD => '\u{203a}',
            0xDE => '\u{fb01}',
            0xDF => '\u{fb02}',
            0xE0 => '\u{2021}',
            0xE1 => '\u{b7}',
            0xE2 => '\u{201a}',
            0xE3 => '\u{201e}',
            0xE4 => '\u{2030}',
            0xE5 => '\u{c2}',
            0xE6 => '\u{ca}',
            0xE7 => '\u{c1}',
            0xE8 => '\u{cb}',
            0xE9 => '\u{c8}',
            0xEA => '\u{cd}',
            0xEB => '\u{ce}',
            0xEC => '\u{cf}',
            0xED => '\u{cc}',
            0xEE => '\u{d3}',
            0xEF => '\u{d4}',
            0xF0 => '\u{f8ff}',
            0xF1 => '\u{d2}',
            0xF2 => '\u{da}',
            0xF3 => '\u{db}',
            0xF4 => '\u{d9}',
            0xF5 => '\u{131}',
            0xF6 => '\u{2c6}',
            0xF7 => '\u{2dc}',
            0xF8 => '\u{af}',
            0xF9 => '\u{2d8}',
            0xFA => '\u{2d9}',
            0xFB => '\u{2da}',
            0xFC => '\u{b8}',
            0xFD => '\u{2dd}',
            0xFE => '\u{2db}',
            0xFF => '\u{2c7}',
            _ => {
                proof {
                    assert(false);
                }
                ' '
            },
        }
    }
}

/// ASCII law: a byte string whose bytes all lie below 0x80 decodes to
/// exactly those bytes as characters.
pub proof fn lemma_mac_roman_ascii(s: Seq<u8>)
    requires
        forall|i: int| 0 <= i < s.len() ==> s[i] < 0x80,
    ensures
        spec_mac_roman(s).len() == s.len(),
        forall|i: int| 0 <= i < s.len() ==> spec_mac_roman(s)[i] == s[i] as char,
{
}

/// Collects decoded characters into a `String`.
///
/// Relies on std's `String: FromIterator<char>`: collecting an iterator of
/// chars yields the string holding exactly those chars in order.
#[verifier::external_body]
fn chars_to_string(chars: &Vec<char>) -> (r: String)
    ensures
        r@ == chars@,
{
    chars.iter().collect()
}

/// Decodes a Mac-Roman byte string to text.
fn decode_mac_roman(buf: &[u8]) -> (r: String)
    ensures
        r@ == spec_mac_roman(buf@),
{
    let mut chars: Vec<char> = Vec::new();
    let mut i: usize = 0;
    while i < buf.len()
        invariant
            i <= buf@.len(),
            chars@ == spec_mac_roman(buf@.subrange(0, i as int)),
        decreases buf@.len() - i,
    {
        let b = buf[i];
        chars.push(mac_roman_char(b));
        i = i + 1;
        proof {
            assert(buf@.subrange(0, i as int) =~= buf@.subrange(0, i as int - 1).push(b));
            assert(chars@ =~= spec_mac_roman(buf@.subrange(0, i as int)));
        }
    }
    proof {
        assert(buf@.subrange(0, buf@.len() as int) =~= buf@);
    }
    chars_to_string(&chars)
}

/// The `name` table header: format, record count and the storage-area
/// offset (relative to the start of the name table).
#[derive(Debug)]
pub struct Name<'tbl> {
    buffer: &'tbl [u8],
    pub format: u16,
    pub count: u16,
    pub offset: u16,
}

/// One 12-byte name record; its string offset is relative to the table's
/// storage area, not to the table start.
#[derive(Debug, Clone, Copy, PartialEq, Eq, Structural)]
pub struct NameRecord {
    pub platform_id: u16,
    pub encoding_id: u16,
    pub language_id: u16,
    pub name_id: u16,
    pub length: u16,
    pub offset: u16,
}

/// The 12-byte window of name record `k` of a name table `s`.
pub open spec fn spec_name_record_window(s: Seq<u8>, k: int) -> Seq<u8> {
    s.subrange(6 + 12 * k, 6 + 12 * k + 12)
}

/// Whether name record `k` of `s` is a Macintosh/Roman, language 0 record
/// carrying name id `id`.
pub open spec fn spec_name_record_matches(s: Seq<u8>, k: int, id: u16) -> bool {
    &&& spec_be_u16_at(s, 6 + 12 * k) == 1
    &&& spec_be_u16_at(s, 6 + 12 * k + 2) == 0
    &&& spec_be_u16_at(s, 6 + 12 * k + 4) == 0
    &&& spec_be_u16_at(s, 6 + 12 * k + 6) == id
}

/// The first record (starting from `k`, out of `n`) matching
/// [`spec_name_record_matches`].
pub open spec fn spec_find_name(s: Seq<u8>, n: int, id: u16, k: int) -> Option<int>
    decreases n - k,
{
    if k >= n {
        None
    } else if spec_name_record_matches(s, k, id) {
        Some(k)
    } else {
        spec_find_name(s, n, id, k + 1)
    }
}

/// What a well-known-name getter returns on a name table `s` with `n`
/// records and storage offset `storage`: the Mac-Roman decoding of the first
/// matching record's string bytes, or `None` when the records do not fit the
/// table, no record matches, or the string range falls outside the table.
pub open spec fn spec_name_lookup(
    s: Seq<u8>,
    n: int,
    storage: int,
    id: u16,
    r: Option<String>,
) -> bool {
    if s.len() < 6 + 12 * n {
        r is None
    } else {
        match spec_find_name(s, n, id, 0) {
            None => r is None,
            Some(k) => {
                let len = spec_be_u16_at(s, 6 + 12 * k + 8) as int;
                let off = spec_be_u16_at(s, 6 + 12 * k + 10) as int;
                let start = storage + off;
                if s.len() < start + len {
                    r is None
                } else {
                    r matches Some(out) && out@ == spec_mac_roman(s.subrange(start, start + len))
                }
            },
        }
    }
}

impl<'tbl> Name<'tbl> {
    /// The bytes of the whole name table region.
    pub closed spec fn spec_table(self) -> Seq<u8> {
        self.buffer@
    }

    /// The record count field.
    pub closed spec fn spec_count(self) -> u16 {
        self.count
    }

    /// The storage-area offset field.
    pub closed spec fn spec_offset(self) -> u16 {
        self.offset
    }

    /// The format field.
    pub closed spec fn spec_format(self) -> u16 {
        self.format
    }

    /// A cursor over the table's name records, checked up front to lie
    /// inside the table region.
    pub fn names(&self) -> (r: Result<NameIter<'tbl>, Error>)
        ensures
            ({
                let s = self.spec_table();
                let n = self.spec_count() as int;
                match r {
                    Ok(it) => {
                        &&& s.len() >= 6 + 12 * n
                        &&& it.spec_buf() == s.skip(6)
                        &&& it.spec_pos() == 0
                        &&& it.spec_max() == n
                    },
                    Err(e) => e == Error::UnexpectedEof && s.len() < 6 + 12 * n,
                }
            }),
    {
        let required = 6 + 12 * (self.count as usize);
        if self.buffer.len() < required {
            return Err(Error::UnexpectedEof);
        }
        let buf = slice_subrange(self.buffer, 6, self.buffer.len());
        Ok(NameIter { buf, n: 0, cap: self.count as usize })
    }

    /// The Mac-Roman decoded string of the first Macintosh/Roman record
    /// with name id `name_id`, resolved through the storage area.
    pub fn get_name_string(&self, name_id: u16) -> (r: Option<String>)
        ensures
            spec_name_lookup(
                self.spec_table(),
                self.spec_count() as int,
                self.spec_offset() as int,
                name_id,
                r,
            ),
    {
        let ghost s = self.spec_table();
        let ghost n = self.spec_count() as int;
        let mut names = match self.names() {
            Err(_) => {
                return None;
            },
            Ok(names) => names,
        };
        loop
            invariant
                s == self.spec_table(),
                n == self.spec_count() as int,
                names.spec_buf() == s.skip(6),
                names.spec_max() == n,
                0 <= names.spec_pos() <= n,
                s.len() >= 6 + 12 * n,
                spec_find_name(s, n, name_id, 0) == spec_find_name(s, n, name_id, names.spec_pos()),
            decreases n - names.spec_pos(),
        {
            let ghost pos = names.spec_pos();
            match names.next() {
                None => {
                    proof {
                        assert(spec_find_name(s, n, name_id, pos) is None);
                    }
                    return None;
                },
                Some(rec) => {
                    proof {
                        assert(s.skip(6).subrange(12 * pos, 12 * pos + 12)
                            =~= spec_name_record_window(s, pos));
                        assert(spec_be_u16_at(spec_name_record_window(s, pos), 0)
                            == spec_be_u16_at(s, 6 + 12 * pos));
                        assert(spec_be_u16_at(spec_name_record_window(s, pos), 2)
                            == spec_be_u16_at(s, 6 + 12 * pos + 2));
                        assert(spec_be_u16_at(spec_name_record_window(s, pos), 4)
                            == spec_be_u16_at(s, 6 + 12 * pos + 4));
                        assert(spec_be_u16_at(spec_name_record_window(s, pos), 6)
                            == spec_be_u16_at(s, 6 + 12 * pos + 6));
                        assert(spec_be_u16_at(spec_name_record_window(s, pos), 8)
                            == spec_be_u16_at(s, 6 + 12 * pos + 8));
                        assert(spec_be_u16_at(spec_name_record_window(s, pos), 10)
                            == spec_be_u16_at(s, 6 + 12 * pos + 10));
                    }
                    if rec.platform_id == 1 && rec.encoding_id == 0 && rec.language_id == 0
                        && rec.name_id == name_id {
                        proof {
                            assert(spec_name_record_matches(s, pos, name_id));
                            assert(spec_find_name(s, n, name_id, pos) == Some(pos));
                        }
                        let start = (self.offset as usize) + (rec.offset as usize);
                        let end = start + (rec.length as usize);
                        if self.buffer.len() < end {
                            return None;
                        }
                        let bytes = slice_subrange(self.buffer, start, end);
                        return Some(decode_mac_roman(bytes));
                    }
                    proof {
                        assert(!spec_name_record_matches(s, pos, name_id));
                        assert(spec_find_name(s, n, name_id, pos) == spec_find_name(
                            s,
                            n,
                            name_id,
                            pos + 1,
                        ));
                    }
                },
            }
        }
    }

    /// The first Macintosh/Roman (platform 1, encoding 0, language 0)
    /// record with name id 0, decoded from Mac-Roman.
    pub fn get_copyright(&self) -> (r: Option<String>)
        ensures
            spec_name_lookup(self.spec_table(), self.spec_count() as int, self.spec_offset() as int, 0, r),
    {
        self.get_name_string(0)
    }
    /// The first Macintosh/Roman (platform 1, encoding 0, language 0)
    /// record with name id 1, decoded from Mac-Roman.
    pub fn get_family(&self) -> (r: Option<String>)
        ensures
            spec_name_lookup(self.spec_table(), self.spec_count() as int, self.spec_offset() as int, 1, r),
    {
        self.get_name_string(1)
    }
    /// The first Macintosh/Roman (platform 1, encoding 0, language 0)
    /// record with name id 2, decoded from Mac-Roman.
    pub fn get_subfamily(&self) -> (r: Option<String>)
        ensures
            spec_name_lookup(self.spec_table(), self.spec_count() as int, self.spec_offset() as int, 2, r),
    {
        self.get_name_string(2)
    }
    /// The first Macintosh/Roman (platform 1, encoding 0, language 0)
    /// record with name id 3, decoded from Mac-Roman.
    pub fn get_identifier(&self) -> (r: Option<String>)
        ensures
            spec_name_lookup(self.spec_table(), self.spec_count() as int, self.spec_offset() as int, 3, r),
    {
        self.get_name_string(3)
    }
    /// The first Macintosh/Roman (platform 1, encoding 0, language 0)
    /// record with name id 4, decoded from Mac-Roman.
    pub fn get_full_name(&self) -> (r: Option<String>)
        ensures
            spec_name_lookup(self.spec_table(), self.spec_count() as int, self.spec_offset() as int, 4, r),
    {
        self.get_name_string(4)
    }
    /// The first Macintosh/Roman (platform 1, encoding 0, language 0)
    /// record with name id 5, decoded from Mac-Roman.
    pub fn get_version(&self) -> (r: Option<String>)
        ensures
            spec_name_lookup(self.spec_table(), self.spec_count() as int, self.spec_offset() as int, 5, r),
    {
        self.get_name_string(5)
    }
    /// The first Macintosh/Roman (platform 1, encoding 0, language 0)
    /// record with name id 6, decoded from Mac-Roman.
    pub fn get_postscript_name(&self) -> (r: Option<String>)
        ensures
            spec_name_lookup(self.spec_table(), self.spec_count() as int, self.spec_offset() as int, 6, r),
    {
        self.get_name_string(6)
    }
    /// The first Macintosh/Roman (platform 1, encoding 0, language 0)
    /// record with name id 7, decoded from Mac-Roman.
    pub fn get_trademark(&self) -> (r: Option<String>)
        ensures
            spec_name_lookup(self.spec_table(), self.spec_count() as int, self.spec_offset() as int, 7, r),
    {
        self.get_name_string(7)
    }
    /// The first Macintosh/Roman (platform 1, encoding 0, language 0)
    /// record with name id 8, decoded from Mac-Roman.
    pub fn get_manufacturer(&self) -> (r: Option<String>)
        ensures
            spec_name_lookup(self.spec_table(), self.spec_count() as int, self.spec_offset() as int, 8, r),
    {
        self.get_name_string(8)
    }
    /// The first Macintosh/Roman (platform 1, encoding 0, language 0)
    /// record with name id 9, decoded from Mac-Roman.
    pub fn get_designer(&self) -> (r: Option<String>)
        ensures
            spec_name_lookup(self.spec_table(), self.spec_count() as int, self.spec_offset() as int, 9, r),
    {
        self.get_name_string(9)
    }
    /// The first Macintosh/Roman (platform 1, encoding 0, language 0)
    /// record with name id 10, decoded from Mac-Roman.
    pub fn get_description(&self) -> (r: Option<String>)
        ensures
            spec_name_lookup(self.spec_table(), self.spec_count() as int, self.spec_offset() as int, 10, r),
    {
        self.get_name_string(10)
    }
    /// The first Macintosh/Roman (platform 1, encoding 0, language 0)
    /// record with name id 11, decoded from Mac-Roman.
    pub fn get_vender_url(&self) -> (r: Option<String>)
        ensures
            spec_name_lookup(self.spec_table(), self.spec_count() as int, self.spec_offset() as int, 11, r),
    {
        self.get_name_string(11)
    }
    /// The first Macintosh/Roman (platform 1, encoding 0, language 0)
    /// record with name id 12, decoded from Mac-Roman.
    pub fn get_designer_url(&self) -> (r: Option<String>)
        ensures
            spec_name_lookup(self.spec_table(), self.spec_count() as int, self.spec_offset() as int, 12, r),
    {
        self.get_name_string(12)
    }
    /// The first Macintosh/Roman (platform 1, encoding 0, language 0)
    /// record with name id 13, decoded from Mac-Roman.
    pub fn get_license(&self) -> (r: Option<String>)
        ensures
            spec_name_lookup(self.spec_table(), self.spec_count() as int, self.spec_offset() as int, 13, r),
    {
        self.get_name_string(13)
    }
    /// The first Macintosh/Roman (platform 1, encoding 0, language 0)
    /// record with name id 14, decoded from Mac-Roman.
    pub fn get_license_url(&self) -> (r: Option<String>)
        ensures
            spec_name_lookup(self.spec_table(), self.spec_count() as int, self.spec_offset() as int, 14, r),
    {
        self.get_name_string(14)
    }
    /// The first Macintosh/Roman (platform 1, encoding 0, language 0)
    /// record with name id 16, decoded from Mac-Roman.
    pub fn get_typographic_family(&self) -> (r: Option<String>)
        ensures
            spec_name_lookup(self.spec_table(), self.spec_count() as int, self.spec_offset() as int, 16, r),
    {
        self.get_name_string(16)
    }
    /// The first Macintosh/Roman (platform 1, encoding 0, language 0)
    /// record with name id 17, decoded from Mac-Roman.
    pub fn get_typographic_subfamily(&self) -> (r: Option<String>)
        ensures
            spec_name_lookup(self.spec_table(), self.spec_count() as int, self.spec_offset() as int, 17, r),
    {
        self.get_name_string(17)
    }
    /// The first Macintosh/Roman (platform 1, encoding 0, language 0)
    /// record with name id 18, decoded from Mac-Roman.
    pub fn get_compatible_full_name(&self) -> (r: Option<String>)
        ensures
            spec_name_lookup(self.spec_table(), self.spec_count() as int, self.spec_offset() as int, 18, r),
    {
        self.get_name_string(18)
    }
    /// The first Macintosh/Roman (platform 1, encoding 0, language 0)
    /// record with name id 19, decoded from Mac-Roman.
    pub fn get_sample_text(&self) -> (r: Option<String>)
        ensures
            spec_name_lookup(self.spec_table(), self.spec_count() as int, self.spec_offset() as int, 19, r),
    {
        self.get_name_string(19)
    }
    /// The first Macintosh/Roman (platform 1, encoding 0, language 0)
    /// record with name id 20, decoded from Mac-Roman.
    pub fn get_postscript_cid(&self) -> (r: Option<String>)
        ensures
            spec_name_lookup(self.spec_table(), self.spec_count() as int, self.spec_offset() as int, 20, r),
    {
        self.get_name_string(20)
    }
}

impl<'tbl> Table<'tbl> for Name<'tbl> {
    open spec fn spec_min_size() -> nat {
        6
    }

    open spec fn spec_parses(s: Seq<u8>, v: Self) -> bool {
        &&& v.spec_table() == s
        &&& v.spec_format() == spec_be_u16_at(s, 0)
        &&& v.spec_count() == spec_be_u16_at(s, 2)
        &&& v.spec_offset() == spec_be_u16_at(s, 4)
    }

    open spec fn spec_parse_err(s: Seq<u8>) -> Option<Error> {
        if s.len() < 6 {
            Some(Error::UnexpectedEof)
        } else {
            None
        }
    }

    proof fn lemma_short_input_eof(s: Seq<u8>) {
    }

    fn parse(buffer: &'tbl [u8]) -> Result<Self, Error> {
        if buffer.len() < 6 {
            return Err(Error::UnexpectedEof);
        }
        Ok(
            Name {
                buffer,
                format: read_u16_at(buffer, 0),
                count: read_u16_at(buffer, 2),
                offset: read_u16_at(buffer, 4),
            },
        )
    }
}

impl<'tbl> TaggedTable<'tbl> for Name<'tbl> {
    open spec fn spec_tag() -> Seq<u8> {
        seq![0x6Eu8, 0x61u8, 0x6Du8, 0x65u8]  // "name"

    }

    fn tag() -> (r: Tag) {
        let r = Tag([0x6E, 0x61, 0x6D, 0x65]);
        proof {
            assert(r@ =~= Self::spec_tag());
        }
        r
    }
}

/// A finite cursor over the name records; recreate it (via [`Name::names`])
/// to restart.
pub struct NameIter<'a> {
    buf: &'a [u8],
    n: usize,
    cap: usize,
}

impl<'a> NameIter<'a> {
    #[verifier::type_invariant]
    spec fn type_wf(self) -> bool {
        &&& self.buf@.len() >= 12 * self.cap
        &&& self.n <= self.cap
    }

    /// The record region: the name table past its 6-byte header.
    pub closed spec fn spec_buf(self) -> Seq<u8> {
        self.buf@
    }

    /// How many records have been handed out.
    pub closed spec fn spec_pos(self) -> int {
        self.n as int
    }

    /// The table's record count.
    pub closed spec fn spec_max(self) -> int {
        self.cap as int
    }

    /// The next name record, or `None` when all records have been produced.
    pub fn next(&mut self) -> (r: Option<NameRecord>)
        ensures
            final(self).spec_buf() == old(self).spec_buf(),
            final(self).spec_max() == old(self).spec_max(),
            if old(self).spec_pos() >= old(self).spec_max() {
                r is None && final(self).spec_pos() == old(self).spec_pos()
            } else {
                &&& final(self).spec_pos() == old(self).spec_pos() + 1
                &&& match r {
                    Some(rec) => {
                        let w = old(self).spec_buf().subrange(
                            12 * old(self).spec_pos(),
                            12 * old(self).spec_pos() + 12,
                        );
                        &&& rec.platform_id == spec_be_u16_at(w, 0)
                        &&& rec.encoding_id == spec_be_u16_at(w, 2)
                        &&& rec.language_id == spec_be_u16_at(w, 4)
                        &&& rec.name_id == spec_be_u16_at(w, 6)
                        &&& rec.length == spec_be_u16_at(w, 8)
                        &&& rec.offset == spec_be_u16_at(w, 10)
                    },
                    None => false,
                }
            },
    {
        proof {
            use_type_invariant(&*self);
        }
        if self.n >= self.cap {
            return None;
        }
        let blen: usize = self.buf.len();
        let w = slice_subrange(self.buf, 12 * self.n, 12 * self.n + 12);
        self.n = self.n + 1;
        Some(
            NameRecord {
                platform_id: read_u16_at(w, 0),
                encoding_id: read_u16_at(w, 2),
                language_id: read_u16_at(w, 4),
                name_id: read_u16_at(w, 6),
                length: read_u16_at(w, 8),
                offset: read_u16_at(w, 10),
            },
        )
    }
}

/// The well-known name identifiers of the naming table.
#[derive(Debug, Copy, Clone, PartialEq, Eq, Hash, Structural)]
pub enum NameId {
    Copyright,
    Family,
    Subfamily,
    Identifier,
    FullName,
    Version,
    PostscriptName,
    Trademark,
    Manufacturer,
    Designer,
    Description,
    VenderUrl,
    DesignerUrl,
    License,
    LicenseUrl,
    TypographicFamily,
    TypographicSubfamily,
    CompatibleFull,
    SampleText,
    PostscriptCid,
    WwsFamily,
    WwsSubfamily,
    LightBackgroundPalette,
    DarkBackgroundPalette,
    VariationsPostScriptNamePrefix,
    Unrecognized,
}

/// The [`NameId`] a raw name-id field denotes.
pub open spec fn spec_name_id_from(u: u16) -> NameId {
    if u == 0 {
        NameId::Copyright
    } else if u == 1 {
        NameId::Family
    } else if u == 2 {
        NameId::Subfamily
    } else if u == 3 {
        NameId::Identifier
    } else if u == 4 {
        NameId::FullName
    } else if u == 5 {
        NameId::Version
    } else if u == 6 {
        NameId::PostscriptName
    } else if u == 7 {
        NameId::Trademark
    } else if u == 8 {
        NameId::Manufacturer
    } else if u == 9 {
        NameId::Designer
    } else if u == 10 {
        NameId::Description
    } else if u == 11 {
        NameId::VenderUrl
    } else if u == 12 {
        NameId::DesignerUrl
    } else if u == 13 {
        NameId::License
    } else if u == 14 {
        NameId::LicenseUrl
    } else if u == 16 {
        NameId::TypographicFamily
    } else if u == 17 {
        NameId::TypographicSubfamily
    } else if u == 18 {
        NameId::CompatibleFull
    } else if u == 19 {
        NameId::SampleText
    } else if u == 20 {
        NameId::PostscriptCid
    } else if u == 21 {
        NameId::WwsFamily
    } else if u == 22 {
        NameId::WwsSubfamily
    } else if u == 23 {
        NameId::LightBackgroundPalette
    } else if u == 24 {
        NameId::DarkBackgroundPalette
    } else if u == 25 {
        NameId::VariationsPostScriptNamePrefix
    } else {
        NameId::Unrecognized
    }
}

impl NameId {
    /// Maps a raw name-id field to the well-known identifier it denotes.
    pub fn from(u: u16) -> (r: NameId)
        ensures
            r == spec_name_id_from(u),
    {
        match u {
            0 => NameId::Copyright,
            1 => NameId::Family,
            2 => NameId::Subfamily,
            3 => NameId::Identifier,
            4 => NameId::FullName,
            5 => NameId::Version,
            6 => NameId::PostscriptName,
            7 => NameId::Trademark,
            8 => NameId::Manufacturer,
            9 => NameId::Designer,
            10 => NameId::Description,
            11 => NameId::VenderUrl,
            12 => NameId::DesignerUrl,
            13 => NameId::License,
            14 => NameId::LicenseUrl,
            16 => NameId::TypographicFamily,
            17 => NameId::TypographicSubfamily,
            18 => NameId::CompatibleFull,
            19 => NameId::SampleText,
            20 => NameId::PostscriptCid,
            21 => NameId::WwsFamily,
            22 => NameId::WwsSubfamily,
            23 => NameId::LightBackgroundPalette,
            24 => NameId::DarkBackgroundPalette,
            25 => NameId::VariationsPostScriptNamePrefix,
            _ => NameId::Unrecognized,
        }
    }
}

} // verus!
