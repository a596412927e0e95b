//! cmap tests: record enumeration, format dispatch, the format 4, 6 and 12
//! lookup rules, and the default-subtable priority order.

use sfnt::decode::Error;
use sfnt::decode::Table;
use sfnt::font::Font;
use sfnt::table::cmap::{Cmap, CmapHeader, SequentialMapGroup};

fn be16(v: &mut Vec<u8>, x: u16) {
    v.extend_from_slice(&x.to_be_bytes());
}

fn be32(v: &mut Vec<u8>, x: u32) {
    v.extend_from_slice(&x.to_be_bytes());
}

/// A format 4 subtable (with its format/length prefix) built from segments
/// of (end, start, delta, id_range_offset).
fn format4_subtable(segments: &[(u16, u16, u16, u16)]) -> Vec<u8> {
    let seg_count_x2 = (2 * segments.len()) as u16;
    let mut v = Vec::new();
    be16(&mut v, 4); // format
    be16(&mut v, 0); // length (unused by the decoder)
    be16(&mut v, 0); // language
    be16(&mut v, seg_count_x2);
    be16(&mut v, 0); // searchRange
    be16(&mut v, 0); // entrySelector
    be16(&mut v, 0); // rangeShift
    for &(end, _, _, _) in segments {
        be16(&mut v, end);
    }
    be16(&mut v, 0); // reserved pad
    for &(_, start, _, _) in segments {
        be16(&mut v, start);
    }
    for &(_, _, delta, _) in segments {
        be16(&mut v, delta);
    }
    for &(_, _, _, off) in segments {
        be16(&mut v, off);
    }
    v
}

/// A whole font holding one cmap table built from (platform, encoding,
/// subtable bytes) entries; records can share a subtable by passing the
/// same bytes (they are deduplicated by offset in order).
fn font_with_cmap(records: &[(u16, u16, u32)], body: &[u8]) -> Vec<u8> {
    let mut cmap = Vec::new();
    be16(&mut cmap, 0); // version
    be16(&mut cmap, records.len() as u16);
    for &(platform, encoding, offset) in records {
        be16(&mut cmap, platform);
        be16(&mut cmap, encoding);
        be32(&mut cmap, offset);
    }
    cmap.extend_from_slice(body);

    let mut buf = Vec::new();
    buf.extend_from_slice(b"OTTO");
    be16(&mut buf, 1); // num tables
    be16(&mut buf, 0);
    be16(&mut buf, 0);
    be16(&mut buf, 0);
    buf.extend_from_slice(b"cmap");
    be32(&mut buf, 0); // checksum (not read here)
    be32(&mut buf, 28); // offset: directly after the single record
    be32(&mut buf, cmap.len() as u32);
    buf.extend_from_slice(&cmap);
    buf
}

/// The cmap fixture: three encoding records — (0,3) and (3,1) sharing a
/// format 4 subtable at table offset 28, (1,0) naming a format 0 subtable
/// (unsupported) at offset 148.
fn cmap_fixture() -> Vec<u8> {
    // ASCII 0x20..=0x7E maps to glyphs 3..=97: delta = 3 - 0x20 mod 2^16.
    let f4 = format4_subtable(&[(0x7E, 0x20, 65507, 0), (0xFFFF, 0xFFFF, 1, 0)]);
    assert_eq!(f4.len(), 32);
    let mut body = f4;
    // Pad out to table offset 148 (28 header/records + 120 body bytes).
    while body.len() < 120 {
        body.push(0);
    }
    // A format 0 subtable prefix: format, length.
    be16(&mut body, 0);
    be16(&mut body, 262);
    while body.len() < 132 {
        body.push(0);
    }
    font_with_cmap(&[(0, 3, 28), (1, 0, 148), (3, 1, 28)], &body)
}

fn cmap_header<'a>(font: &'a Font<'a>) -> CmapHeader<'a> {
    font.get_table::<CmapHeader>()
        .expect("Failed to read Cmap Header table")
        .expect("Failed to read Cmap Header table")
}

#[test]
fn list_cmaps() {
    let buf = cmap_fixture();
    let font = Font::from_buffer(&buf).expect("unable to parse font");
    let tbl = cmap_header(&font);
    assert_eq!(tbl.num_tables, 3);

    let mut records = tbl.records().expect("Failed to generated Cmap Records iter");
    let expected: [(u16, u16, u32, Option<usize>); 3] =
        [(0, 3, 28, Some(4)), (1, 0, 148, None), (3, 1, 28, Some(4))];
    for &(platform, encoding, offset, format) in expected.iter() {
        match records.next() {
            Some(rec) => {
                assert_eq!(rec.platform, platform);
                assert_eq!(rec.encoding, encoding);
                assert_eq!(rec.offset, offset);
                assert_eq!(rec.get_cmap().ok().map(|c| c.format()), format);
            }
            _ => panic!("Fewer cmap records than expected"),
        }
    }
    assert!(records.next().is_none(), "More cmap records than expected");
}

#[test]
fn format4() {
    let buf = cmap_fixture();
    let font = Font::from_buffer(&buf).expect("unable to parse font");
    let tbl = cmap_header(&font);

    let cmap = tbl
        .records()
        .expect("Failed to generated Cmap Records iter")
        .next()
        .expect("Failed to parse cmap record header");

    let cmap = match cmap.get_cmap().expect("failed to read cmap record") {
        Cmap::Format4(c) => c,
        _ => panic!("format 4 should be the first record"),
    };

    assert!(
        (b' '..b'~').map(|c| cmap.get_glyph_id(c as u32).unwrap()).eq(3..97),
        "cmap lookup failed"
    );
}

#[test]
fn default_cmap() {
    let buf = cmap_fixture();
    let font = Font::from_buffer(&buf).expect("unable to parse font");
    let cmap = cmap_header(&font).get_default_cmap().expect("Failed to find a default cmap");

    assert_eq!(cmap.format(), 4);
    assert_eq!(cmap.get_glyph_id(b' ' as u32), Some(3));
    assert_eq!(cmap.get_glyph_id(b'~' as u32), Some(97));

    assert!(
        (b' '..b'~').map(|c| cmap.get_glyph_id(c as u32).unwrap()).eq(3..97),
        "cmap lookup failed"
    );
}

#[test]
fn format4_gaps_and_reserved() {
    // Two segments with a gap between them: 40..=50 (delta 10) and
    // 60..=70 (delta 100), closed by the required final segment.
    let f4 = format4_subtable(&[(50, 40, 10, 0), (70, 60, 100, 0), (0xFFFF, 0xFFFF, 1, 0)]);
    let buf = font_with_cmap(&[(3, 1, 12)], &f4);
    let font = Font::from_buffer(&buf).expect("unable to parse font");
    let cmap = cmap_header(&font).get_default_cmap().expect("default cmap missing");

    // Covered codepoints follow the (codepoint + delta) mod 65536 rule.
    for cp in 40..=50u32 {
        assert_eq!(cmap.get_glyph_id(cp), Some((cp + 10) as u16));
    }
    for cp in 60..=70u32 {
        assert_eq!(cmap.get_glyph_id(cp), Some((cp + 100) as u16));
    }
    // Codepoints in the gaps have no mapping.
    for cp in [0u32, 39, 51, 55, 59, 71, 1000] {
        assert_eq!(cmap.get_glyph_id(cp), None);
    }
    // Reserved codepoints never map.
    assert_eq!(cmap.get_glyph_id(0xFFFE), None);
    assert_eq!(cmap.get_glyph_id(0xFFFF), None);
    assert_eq!(cmap.get_glyph_id(0x10FFFF), None);
}

#[test]
fn format4_range_offset_indexing() {
    // One segment 100..=102 whose id_range_offset points into the glyph-id
    // array relative to the offset's own storage position.  With two
    // segments, offset 4 at segment 0 lands exactly on the array start.
    let mut f4 = format4_subtable(&[(102, 100, 0, 4), (0xFFFF, 0xFFFF, 1, 0)]);
    for g in [21u16, 22, 23] {
        be16(&mut f4, g);
    }
    let buf = font_with_cmap(&[(3, 1, 12)], &f4);
    let font = Font::from_buffer(&buf).expect("unable to parse font");
    let cmap = cmap_header(&font).get_default_cmap().expect("default cmap missing");
    assert_eq!(cmap.get_glyph_id(100), Some(21));
    assert_eq!(cmap.get_glyph_id(101), Some(22));
    assert_eq!(cmap.get_glyph_id(102), Some(23));
    assert_eq!(cmap.get_glyph_id(103), None);
}

/// A format 6 subtable (with prefix): first code and the glyph array.
fn format6_subtable(first_code: u16, glyphs: &[u16]) -> Vec<u8> {
    let mut v = Vec::new();
    be16(&mut v, 6); // format
    be16(&mut v, 0); // length
    be16(&mut v, 0); // language
    be16(&mut v, first_code);
    be16(&mut v, glyphs.len() as u16);
    for &g in glyphs {
        be16(&mut v, g);
    }
    v
}

#[test]
fn format6_trimmed_array() {
    let f6 = format6_subtable(1000, &[5, 6, 7]);
    let buf = font_with_cmap(&[(0, 3, 12)], &f6);
    let font = Font::from_buffer(&buf).expect("unable to parse font");
    let cmap = cmap_header(&font).get_default_cmap().expect("default cmap missing");
    assert_eq!(cmap.format(), 6);
    assert_eq!(cmap.get_glyph_id(999), None);
    assert_eq!(cmap.get_glyph_id(1000), Some(5));
    assert_eq!(cmap.get_glyph_id(1002), Some(7));
    assert_eq!(cmap.get_glyph_id(1003), None);
}

/// A format 12 subtable (with prefix) from (start_char, end_char,
/// start_glyph) groups.
fn format12_subtable(groups: &[(u32, u32, u32)]) -> Vec<u8> {
    let mut v = Vec::new();
    be16(&mut v, 12); // format
    be16(&mut v, 0); // reserved
    be32(&mut v, (16 + 12 * groups.len()) as u32); // length
    be32(&mut v, 0); // language
    be32(&mut v, groups.len() as u32);
    for &(start, end, glyph) in groups {
        be32(&mut v, start);
        be32(&mut v, end);
        be32(&mut v, glyph);
    }
    v
}

#[test]
fn format12_groups() {
    let f12 = format12_subtable(&[(0x61, 0x7A, 1), (0x10000, 0x10010, 500)]);
    let buf = font_with_cmap(&[(3, 10, 12)], &f12);
    let font = Font::from_buffer(&buf).expect("unable to parse font");
    let cmap = cmap_header(&font).get_default_cmap().expect("default cmap missing");
    assert_eq!(cmap.format(), 12);

    // The group formula start_glyph + (cp - start_char) holds in every
    // group.
    assert_eq!(cmap.get_glyph_id(0x61), Some(1));
    assert_eq!(cmap.get_glyph_id(0x6B), Some(11));
    assert_eq!(cmap.get_glyph_id(0x7A), Some(26));
    assert_eq!(cmap.get_glyph_id(0x10000), Some(500));
    assert_eq!(cmap.get_glyph_id(0x10010), Some(516));
    // Outside every group: no mapping.
    assert_eq!(cmap.get_glyph_id(0x60), None);
    assert_eq!(cmap.get_glyph_id(0x7B), None);
    assert_eq!(cmap.get_glyph_id(0x10011), None);
}

#[test]
fn sequential_map_group_contains() {
    let mut bytes = Vec::new();
    be32(&mut bytes, 100);
    be32(&mut bytes, 200);
    be32(&mut bytes, 7);
    let group: SequentialMapGroup = Table::parse(&bytes).expect("group must parse");
    assert_eq!(group.start_char_code, 100);
    assert_eq!(group.end_char_code, 200);
    assert_eq!(group.start_glyph_id, 7);

    // contains(cp) iff start_char_code <= cp <= end_char_code.
    assert!(!group.contains(99));
    assert!(group.contains(100));
    assert!(group.contains(150));
    assert!(group.contains(200));
    assert!(!group.contains(201));

    assert_eq!(group.get_glyph_id(99), None);
    assert_eq!(group.get_glyph_id(100), Some(7));
    assert_eq!(group.get_glyph_id(150), Some(57));
    assert_eq!(group.get_glyph_id(201), None);
}

#[test]
fn default_prefers_full_unicode() {
    // Both a (3,10) and a (0,0) record resolve; the default must be the
    // (3,10) subtable (format 12 here), never the (0,0) one (format 6).
    let f12 = format12_subtable(&[(0x41, 0x5A, 10)]);
    let f6 = format6_subtable(0x41, &[99]);
    let off12 = 4 + 2 * 8;
    let off6 = off12 + f12.len() as u32;
    let mut body = f12.clone();
    body.extend_from_slice(&f6);
    let buf = font_with_cmap(&[(0, 0, off6), (3, 10, off12)], &body);
    let font = Font::from_buffer(&buf).expect("unable to parse font");
    let cmap = cmap_header(&font).get_default_cmap().expect("default cmap missing");
    assert_eq!(cmap.format(), 12);
    assert_eq!(cmap.get_glyph_id(0x41), Some(10));
}

#[test]
fn unsupported_format_is_distinct() {
    // A format 2 subtable: resolving it reports UnsupportedCmapFormat, not
    // InvalidData, so callers can skip it.
    let mut body = Vec::new();
    be16(&mut body, 2);
    be16(&mut body, 0);
    let buf = font_with_cmap(&[(1, 0, 12)], &body);
    let font = Font::from_buffer(&buf).expect("unable to parse font");
    let tbl = cmap_header(&font);
    let rec = tbl.records().expect("records must fit").next().expect("one record");
    match rec.get_cmap() {
        Err(Error::UnsupportedCmapFormat) => {}
        _ => panic!("format 2 must be reported as unsupported"),
    }
    // And the default selection treats it as unresolvable.
    assert!(tbl.get_default_cmap().is_none());
}

#[test]
fn truncated_subtable_is_eof() {
    // The record points past the end of the cmap table.
    let buf = font_with_cmap(&[(3, 1, 4096)], &[]);
    let font = Font::from_buffer(&buf).expect("unable to parse font");
    let tbl = cmap_header(&font);
    let rec = tbl.records().expect("records must fit").next().expect("one record");
    match rec.get_cmap() {
        Err(Error::UnexpectedEof) => {}
        _ => panic!("an out-of-bounds subtable offset must be EOF"),
    }
}
