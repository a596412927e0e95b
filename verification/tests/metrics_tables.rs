//! Fixed-layout table tests: head, hhea, maxp, OS/2 and the horizontal
//! metrics table with its compaction rule.

use sfnt::decode::primitives::{FWord, Fixed, UFWord};
use sfnt::decode::Error;
use sfnt::font::Font;
use sfnt::table::head::Head;
use sfnt::table::hhea::Hhea;
use sfnt::table::hmtx::Hmtx;
use sfnt::table::maxp::Maxp;
use sfnt::table::os2::Os2;

fn be16(v: &mut Vec<u8>, x: u16) {
    v.extend_from_slice(&x.to_be_bytes());
}

fn bei16(v: &mut Vec<u8>, x: i16) {
    v.extend_from_slice(&x.to_be_bytes());
}

fn be32(v: &mut Vec<u8>, x: u32) {
    v.extend_from_slice(&x.to_be_bytes());
}

fn bei32(v: &mut Vec<u8>, x: i32) {
    v.extend_from_slice(&x.to_be_bytes());
}

fn bei64(v: &mut Vec<u8>, x: i64) {
    v.extend_from_slice(&x.to_be_bytes());
}

/// A font whose directory names each `(tag, bytes)` table in order.
fn font_with_tables(tables: &[(&[u8; 4], &[u8])]) -> Vec<u8> {
    let mut buf = Vec::new();
    buf.extend_from_slice(&[0x00, 0x01, 0x00, 0x00]);
    be16(&mut buf, tables.len() as u16);
    be16(&mut buf, 0);
    be16(&mut buf, 0);
    be16(&mut buf, 0);
    let mut offset = 12 + 16 * tables.len() as u32;
    for &(tag, bytes) in tables {
        buf.extend_from_slice(tag);
        be32(&mut buf, 0); // checksum (not read here)
        be32(&mut buf, offset);
        be32(&mut buf, bytes.len() as u32);
        offset += bytes.len() as u32;
    }
    for &(_, bytes) in tables {
        buf.extend_from_slice(bytes);
    }
    buf
}

fn head_fixture() -> Vec<u8> {
    let mut t = Vec::new();
    be16(&mut t, 1); // major_version
    be16(&mut t, 0); // minor_version
    bei32(&mut t, 72090); // font_revision
    bei32(&mut t, 566752607); // check_sum_adjustment
    bei32(&mut t, 1594834165); // magic_number
    be16(&mut t, 9); // flags
    be16(&mut t, 2048); // units_per_em
    bei64(&mut t, 3375706507); // created
    bei64(&mut t, 3387444300); // modified
    bei16(&mut t, -1126); // x_min
    bei16(&mut t, -555); // y_min
    bei16(&mut t, 2466); // x_max
    bei16(&mut t, 2146); // y_max
    be16(&mut t, 0); // mac_style
    be16(&mut t, 9); // lowest_rec_ppem
    bei16(&mut t, 2); // font_direction_hint
    bei16(&mut t, 0); // index_to_loc_format
    bei16(&mut t, 0); // glyph_data_format
    t
}

#[test]
fn head() {
    let head_bytes = head_fixture();
    assert_eq!(head_bytes.len(), 54);
    let buf = font_with_tables(&[(b"head", &head_bytes)]);
    let font = Font::from_buffer(&buf).expect("Unable to parse font");
    let tbl: Head = font.get_table().unwrap().expect("unable to read Head table");

    assert_eq!(tbl.major_version(), 1);
    assert_eq!(tbl.minor_version(), 0);
    assert_eq!(tbl.font_revision(), Fixed(72090));
    assert_eq!(tbl.check_sum_adjustment(), 566752607);
    assert_eq!(tbl.magic_number(), 1594834165);
    assert_eq!(tbl.flags(), 9);
    assert_eq!(tbl.units_per_em(), 2048);
    assert_eq!(tbl.created(), 3375706507);
    assert_eq!(tbl.modified(), 3387444300);
    assert_eq!(tbl.x_min(), -1126);
    assert_eq!(tbl.y_min(), -555);
    assert_eq!(tbl.x_max(), 2466);
    assert_eq!(tbl.y_max(), 2146);
    assert_eq!(tbl.mac_style(), 0);
    assert_eq!(tbl.lowest_rec_ppem(), 9);
    assert_eq!(tbl.font_direction_hint(), 2);
    assert_eq!(tbl.index_to_loc_format(), 0);
    assert_eq!(tbl.glyph_data_format(), 0);
}

fn hhea_fixture(number_of_h_metrics: u16) -> Vec<u8> {
    let mut t = Vec::new();
    be16(&mut t, 1); // major_version
    be16(&mut t, 0); // minor_version
    bei16(&mut t, 2189); // ascent
    bei16(&mut t, -600); // descent
    bei16(&mut t, 0); // line_gap
    be16(&mut t, 2476); // advance_width_max
    bei16(&mut t, -1126); // min_left_side_bearing
    bei16(&mut t, -389); // min_right_side_bearing
    bei16(&mut t, 2466); // x_max_extent
    bei16(&mut t, 1); // caret_slope_rise
    bei16(&mut t, 0); // caret_slope_run
    bei16(&mut t, 0); // caret_offset
    be16(&mut t, 0); // reserved
    be16(&mut t, 0); // reserved
    be16(&mut t, 0); // reserved
    be16(&mut t, 0); // reserved
    bei16(&mut t, 0); // metric_data_format
    be16(&mut t, number_of_h_metrics);
    t
}

#[test]
fn print_tables() {
    let hhea_bytes = hhea_fixture(931);
    assert_eq!(hhea_bytes.len(), 36);
    let buf = font_with_tables(&[(b"hhea", &hhea_bytes)]);
    let font = Font::from_buffer(&buf).expect("Unable to parse font");
    let tbl: Hhea = font.get_table().unwrap().expect("unable to read hhea table");

    assert_eq!(tbl.major_version, 1);
    assert_eq!(tbl.minor_version, 0);
    assert_eq!(tbl.ascent, FWord(2189));
    assert_eq!(tbl.descent, FWord(-600));
    assert_eq!(tbl.line_gap, FWord(0));
    assert_eq!(tbl.advance_width_max, UFWord(2476));
    assert_eq!(tbl.min_left_side_bearing, FWord(-1126));
    assert_eq!(tbl.min_right_side_bearing, FWord(-389));
    assert_eq!(tbl.x_max_extent, FWord(2466));
    assert_eq!(tbl.caret_slope_rise, 1);
    assert_eq!(tbl.caret_slope_run, 0);
    assert_eq!(tbl.caret_offset, 0);
    assert_eq!(tbl.metric_data_format, 0);
    assert_eq!(tbl.number_of_h_metrics, 931);
}

fn maxp_v1_fixture(fields: &[u16; 14]) -> Vec<u8> {
    let mut t = Vec::new();
    be32(&mut t, 0x00010000);
    for &f in fields {
        be16(&mut t, f);
    }
    t
}

#[test]
fn maxp() {
    let maxp_bytes = maxp_v1_fixture(&[1294, 143, 22, 84, 5, 1, 0, 0, 14, 0, 512, 548, 6, 1]);
    let buf = font_with_tables(&[(b"maxp", &maxp_bytes)]);
    let font = Font::from_buffer(&buf).expect("Unable to parse font");
    let tbl: Maxp = font.get_table().unwrap().expect("Unable to read Maxp table");

    if let Maxp::Version1(maxp) = tbl {
        assert_eq!(maxp.num_glyphs, 1294);
        assert_eq!(maxp.max_points, 143);
        assert_eq!(maxp.max_contours, 22);
        assert_eq!(maxp.max_composite_points, 84);
        assert_eq!(maxp.max_composite_contours, 5);
        assert_eq!(maxp.max_zones, 1);
        assert_eq!(maxp.max_twilight_points, 0);
        assert_eq!(maxp.max_storage, 0);
        assert_eq!(maxp.max_function_defs, 14);
        assert_eq!(maxp.max_instruction_defs, 0);
        assert_eq!(maxp.max_stack_elements, 512);
        assert_eq!(maxp.max_size_of_instructions, 548);
        assert_eq!(maxp.max_component_elements, 6);
        assert_eq!(maxp.max_component_depth, 1);
    } else {
        panic!("Parsed incorrect version for maxp");
    }
}

#[test]
fn maxp_versions() {
    // The legacy 0x00005000 form holds only the glyph count.
    let mut legacy = Vec::new();
    be32(&mut legacy, 0x00005000);
    be16(&mut legacy, 77);
    let buf = font_with_tables(&[(b"maxp", &legacy)]);
    let font = Font::from_buffer(&buf).expect("unable to parse font");
    match font.get_table::<Maxp>().unwrap().expect("maxp must parse") {
        Maxp::Version05 { num_glyphs } => assert_eq!(num_glyphs, 77),
        _ => panic!("wrong maxp version"),
    }

    // An unknown version is invalid data, not EOF.
    let mut bad = Vec::new();
    be32(&mut bad, 0x00020000);
    be16(&mut bad, 77);
    let buf = font_with_tables(&[(b"maxp", &bad)]);
    let font = Font::from_buffer(&buf).expect("unable to parse font");
    match font.get_table::<Maxp>() {
        Err(Error::InvalidData) => {}
        _ => panic!("an unknown maxp version is invalid data"),
    }
}

#[test]
fn version() {
    // A 100-byte OS/2 region with a recognizable first field.
    let mut os2_bytes = Vec::new();
    be16(&mut os2_bytes, 3); // version
    while os2_bytes.len() < 100 {
        os2_bytes.push(0);
    }
    let buf = font_with_tables(&[(b"OS/2", &os2_bytes)]);
    let font = Font::from_buffer(&buf).expect("Unable to parse font");
    let tbl: Os2 = font.get_table().unwrap().expect("unable to read OS/2 table");
    assert_eq!(tbl.get_version(), 3);
}

/// An hmtx region: long records then trailing lsbs.
fn hmtx_bytes(long: &[(u16, i16)], trailing: &[i16]) -> Vec<u8> {
    let mut t = Vec::new();
    for &(advance, lsb) in long {
        be16(&mut t, advance);
        bei16(&mut t, lsb);
    }
    for &lsb in trailing {
        bei16(&mut t, lsb);
    }
    t
}

const DROID_METRICS: [(u16, i16); 26] = [
    (1444, 0),
    (1339, 78),
    (1257, 117),
    (1489, 78),
    (1276, 78),
    (1208, 78),
    (1462, 117),
    (1624, 78),
    (752, 78),
    (731, -23),
    (1434, 78),
    (1276, 78),
    (1921, 78),
    (1563, 78),
    (1520, 115),
    (1237, 78),
    (1520, 115),
    (1343, 78),
    (1114, 98),
    (1255, 41),
    (1468, 31),
    (1382, 0),
    (2144, 18),
    (1352, 16),
    (1280, -10),
    (1212, 74),
];

#[test]
fn horizontal_metrics() {
    // Glyphs 36..=61 carry the metrics of 'A'..='Z'; earlier glyphs are
    // left zeroed.
    let mut long: Vec<(u16, i16)> = vec![(0, 0); 36];
    long.extend_from_slice(&DROID_METRICS);
    let hmtx = hmtx_bytes(&long, &[]);
    let maxp = {
        let mut t = Vec::new();
        be32(&mut t, 0x00005000);
        be16(&mut t, long.len() as u16);
        t
    };
    let hhea = hhea_fixture(long.len() as u16);
    let buf = font_with_tables(&[(b"hhea", &hhea), (b"hmtx", &hmtx), (b"maxp", &maxp)]);
    let font = Font::from_buffer(&buf).expect("unable to parse font");
    let hmtx = font.get_table_hmtx().expect("unable to parse hmtx table.");

    for (i, &(advance, lsb)) in DROID_METRICS.iter().enumerate() {
        let glyph_id = (36 + i) as u16;
        let c_mtx = hmtx
            .get_record(glyph_id)
            .unwrap_or_else(|| panic!("unable to find metrics for '{}'", glyph_id));
        assert_eq!(advance, c_mtx.advance_width, "non-equal advance");
        assert_eq!(lsb, c_mtx.lsb, "non-equal lsb");
    }
}

#[test]
fn hmtx_trailing_glyphs_share_last_advance() {
    // numberOfHMetrics = 3, numGlyphs = 7: glyphs 3..=6 all report the last
    // long record's advance (55) with their own lsbs.
    let bytes = hmtx_bytes(&[(90, 1), (70, 2), (55, 3)], &[-4, 5, -6, 7]);
    let hmtx = Hmtx::parse(&bytes, 7, 3).expect("hmtx must parse");

    let last = hmtx.get_record(2).expect("last long record");
    assert_eq!(last.advance_width, 55);
    assert_eq!(last.lsb, 3);

    let expected_lsbs: [i16; 4] = [-4, 5, -6, 7];
    for (i, &lsb) in expected_lsbs.iter().enumerate() {
        let rec = hmtx.get_record((3 + i) as u16).expect("trailing record");
        assert_eq!(rec.advance_width, 55, "trailing advance must match glyph 2");
        assert_eq!(rec.lsb, lsb);
    }
    // Past both regions: no record.
    assert_eq!(hmtx.get_record(7), None);
    assert_eq!(hmtx.get_advance(3), Some(55));
    assert_eq!(hmtx.get_lsb(6), Some(7));
    assert_eq!(hmtx.get_advance(7), None);
}

#[test]
fn hmtx_rejects_bad_counts() {
    let bytes = hmtx_bytes(&[(90, 1)], &[2]);
    // numberOfHMetrics below one is invalid data.
    match Hmtx::parse(&bytes, 2, 0) {
        Err(Error::InvalidData) => {}
        _ => panic!("zero long metrics must be invalid data"),
    }
    // A buffer too short for both regions is EOF.
    match Hmtx::parse(&bytes, 3, 1) {
        Err(Error::UnexpectedEof) => {}
        _ => panic!("short hmtx must be EOF"),
    }
    // More long metrics than glyphs is invalid data.
    match Hmtx::parse(&bytes, 1, 2) {
        Err(Error::InvalidData) => {}
        _ => panic!("metric count above glyph count must be invalid data"),
    }
}

#[test]
fn short_tables_fail_with_eof() {
    // Each fixed-layout table rejects a truncated region with EOF.
    let head_bytes = head_fixture();
    let buf = font_with_tables(&[(b"head", &head_bytes[..53])]);
    let font = Font::from_buffer(&buf).expect("unable to parse font");
    match font.get_table::<Head>() {
        Err(Error::UnexpectedEof) => {}
        _ => panic!("a short head table must be EOF"),
    }

    let hhea_bytes = hhea_fixture(1);
    let buf = font_with_tables(&[(b"hhea", &hhea_bytes[..35])]);
    let font = Font::from_buffer(&buf).expect("unable to parse font");
    match font.get_table::<Hhea>() {
        Err(Error::UnexpectedEof) => {}
        _ => panic!("a short hhea table must be EOF"),
    }

    let buf = font_with_tables(&[(b"maxp", &[0x00, 0x01, 0x00])]);
    let font = Font::from_buffer(&buf).expect("unable to parse font");
    match font.get_table::<Maxp>() {
        Err(Error::UnexpectedEof) => {}
        _ => panic!("a short maxp table must be EOF"),
    }
}
