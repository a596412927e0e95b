//! Directory-level tests: table records, version dispatch, short buffers
//! and the checksum round trip.

use sfnt::decode::primitives::Tag;
use sfnt::decode::Error;
use sfnt::font::Font;

fn be16(v: &mut Vec<u8>, x: u16) {
    v.extend_from_slice(&x.to_be_bytes());
}

fn be32(v: &mut Vec<u8>, x: u32) {
    v.extend_from_slice(&x.to_be_bytes());
}

fn directory_header(v: &mut Vec<u8>, version: &[u8; 4], num_tables: u16) {
    v.extend_from_slice(version);
    be16(v, num_tables);
    be16(v, 0);
    be16(v, 0);
    be16(v, 0);
}

fn record(v: &mut Vec<u8>, tag: &[u8; 4], check_sum: u32, offset: u32, length: u32) {
    v.extend_from_slice(tag);
    be32(v, check_sum);
    be32(v, offset);
    be32(v, length);
}

const RECORDS: [(&[u8; 4], u32, u32, u32); 19] = [
    (b"DSIG", 2651997213, 211868, 5492),
    (b"GDEF", 2491311, 210812, 30),
    (b"GPOS", 188157751, 210844, 56),
    (b"GSUB", 237714871, 210900, 966),
    (b"OS/2", 2705235657, 440, 96),
    (b"cmap", 699084648, 4276, 1050),
    (b"cvt ", 256710820, 7568, 162),
    (b"fpgm", 2120332817, 5328, 1972),
    (b"gasp", 1376291, 210796, 16),
    (b"glyf", 1949866315, 9612, 77748),
    (b"head", 4151763622, 316, 54),
    (b"hhea", 231475571, 372, 36),
    (b"hmtx", 3895803101, 536, 3738),
    (b"kern", 1412106622, 87360, 112182),
    (b"loca", 689233137, 7732, 1878),
    (b"maxp", 88277514, 408, 32),
    (b"name", 1940949125, 199544, 1479),
    (b"post", 38006636, 201024, 9771),
    (b"prep", 1136105124, 7300, 265),
];

fn directory_fixture() -> Vec<u8> {
    let mut buf = Vec::new();
    directory_header(&mut buf, &[0x00, 0x01, 0x00, 0x00], RECORDS.len() as u16);
    for &(tag, check_sum, offset, length) in RECORDS.iter() {
        record(&mut buf, tag, check_sum, offset, length);
    }
    buf
}

#[test]
fn font_table_records() {
    let buf = directory_fixture();
    let font = Font::from_buffer(&buf).expect("Unable to parse font");

    let mut tbls = font.tables().expect("Unable to read tables");
    for &(tag, check_sum, offset, length) in RECORDS.iter() {
        match tbls.next() {
            Some(tbl) => {
                assert_eq!(tbl.tag, Tag(*tag));
                assert_eq!(tbl.check_sum, check_sum);
                assert_eq!(tbl.offset, offset);
                assert_eq!(tbl.length, length);
            }
            _ => {
                panic!("Fewer tables than expected!")
            }
        }
    }
    assert_eq!(tbls.next(), None, "More tables than expected!");
}

#[test]
fn get_record_first_match_wins() {
    // Duplicate tags: the first occurrence in file order governs.
    let mut buf = Vec::new();
    directory_header(&mut buf, b"OTTO", 2);
    record(&mut buf, b"name", 7, 100, 4);
    record(&mut buf, b"name", 8, 200, 4);
    let font = Font::from_buffer(&buf).expect("unable to parse font");
    let rec = font.get_table_record(Tag(*b"name")).expect("record missing");
    assert_eq!(rec.check_sum, 7);
    assert_eq!(rec.offset, 100);
    assert_eq!(font.get_table_offset(Tag(*b"name")), Some(100));
    assert_eq!(font.get_table_record(Tag(*b"glyf")), None);
}

#[test]
fn version_dispatch() {
    let mut otto = Vec::new();
    directory_header(&mut otto, b"OTTO", 0);
    assert!(Font::from_buffer(&otto).is_ok());

    for version in [&[0x00u8, 0x01, 0x00, 0x00], b"true", b"typ1"] {
        let mut buf = Vec::new();
        directory_header(&mut buf, version, 0);
        assert!(Font::from_buffer(&buf).is_ok());
    }

    let mut ttcf = Vec::new();
    directory_header(&mut ttcf, b"ttcf", 0);
    match Font::from_buffer(&ttcf) {
        Err(Error::TtcfUnsupported) => {}
        _ => panic!("a font collection must be rejected as such"),
    }

    let mut junk = Vec::new();
    directory_header(&mut junk, b"zzzz", 0);
    match Font::from_buffer(&junk) {
        Err(Error::InvalidData) => {}
        _ => panic!("an unknown version tag is invalid data"),
    }
}

#[test]
fn short_buffers_fail_with_eof() {
    // A buffer shorter than the directory header.
    for n in 0..12 {
        let buf = vec![0x4Fu8; n]; // 'O' bytes: never a complete header
        match Font::from_buffer(&buf) {
            Err(Error::UnexpectedEof) => {}
            _ => panic!("a short buffer must fail with UnexpectedEof"),
        }
    }
    // A directory that promises more records than the buffer holds.
    let mut buf = Vec::new();
    directory_header(&mut buf, b"OTTO", 3);
    record(&mut buf, b"name", 0, 0, 0);
    let font = Font::from_buffer(&buf).expect("header itself is complete");
    assert!(font.tables().is_err());
    assert_eq!(font.get_table_record(Tag(*b"name")), None);
}

/// The simple sfnt table checksum: the sum of big-endian u32 words over the
/// region padded with zeros to a multiple of four.
fn check_sum(data: &[u8]) -> u32 {
    let mut sum: u32 = 0;
    let mut i = 0;
    while i < data.len() {
        let mut word = [0u8; 4];
        for j in 0..4 {
            if i + j < data.len() {
                word[j] = data[i + j];
            }
        }
        sum = sum.wrapping_add(u32::from_be_bytes(word));
        i += 4;
    }
    sum
}

#[test]
fn directory_checksum_round_trip() {
    // A well-formed font: the stored checksum of the single table record
    // matches the recomputed checksum of the bytes the record names.
    let name_table: &[u8] = &[
        0x00, 0x00, // format
        0x00, 0x00, // count
        0x00, 0x06, // storage offset
    ];
    let mut buf = Vec::new();
    directory_header(&mut buf, b"OTTO", 1);
    let offset = 12 + 16; // directly after the single record
    record(&mut buf, b"name", check_sum(name_table), offset, name_table.len() as u32);
    buf.extend_from_slice(name_table);

    let font = Font::from_buffer(&buf).expect("unable to parse font");
    let rec = font.get_table_record(Tag(*b"name")).expect("record missing");
    let start = rec.offset as usize;
    let end = start + rec.length as usize;
    let recomputed = check_sum(&buf[start..end]);
    assert_eq!(recomputed, rec.check_sum);
}
