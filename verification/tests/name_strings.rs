//! Naming-table tests: well-known string lookup, Mac-Roman decoding, and
//! the single-record scenario.

use sfnt::decode::Error;
use sfnt::font::Font;
use sfnt::table::name::{Name, NameId};

fn be16(v: &mut Vec<u8>, x: u16) {
    v.extend_from_slice(&x.to_be_bytes());
}

fn be32(v: &mut Vec<u8>, x: u32) {
    v.extend_from_slice(&x.to_be_bytes());
}

/// Encodes text as Mac-Roman bytes; ASCII passes through and the one
/// non-ASCII character these fixtures use maps to its Mac-Roman byte.
fn mac_roman_bytes(s: &str) -> Vec<u8> {
    s.chars()
        .map(|c| {
            if (c as u32) < 0x80 {
                c as u8
            } else if c == '\u{a9}' {
                0xA9 // the copyright sign
            } else {
                panic!("fixture character not covered")
            }
        })
        .collect()
}

/// A name table of Macintosh/Roman records: one per `(name_id, text)`.
fn name_table(entries: &[(u16, &str)]) -> Vec<u8> {
    let count = entries.len() as u16;
    let storage_offset = 6 + 12 * count;
    let mut t = Vec::new();
    be16(&mut t, 0); // format
    be16(&mut t, count);
    be16(&mut t, storage_offset);
    let mut storage: Vec<u8> = Vec::new();
    for &(name_id, text) in entries {
        let bytes = mac_roman_bytes(text);
        be16(&mut t, 1); // platform: Macintosh
        be16(&mut t, 0); // encoding: Roman
        be16(&mut t, 0); // language
        be16(&mut t, name_id);
        be16(&mut t, bytes.len() as u16);
        be16(&mut t, storage.len() as u16); // offset within storage
        storage.extend_from_slice(&bytes);
    }
    t.extend_from_slice(&storage);
    t
}

/// A font holding just a name table.
fn font_with_name_table(name: &[u8]) -> Vec<u8> {
    let mut buf = Vec::new();
    buf.extend_from_slice(b"OTTO");
    be16(&mut buf, 1);
    be16(&mut buf, 0);
    be16(&mut buf, 0);
    be16(&mut buf, 0);
    buf.extend_from_slice(b"name");
    be32(&mut buf, 0); // checksum (not read here)
    be32(&mut buf, 28);
    be32(&mut buf, name.len() as u32);
    buf.extend_from_slice(name);
    buf
}

#[test]
fn names_opensans() {
    let name = name_table(&[
        (0, "Digitized data copyright \u{a9} 2010-2011, Google Corporation."),
        (1, "Open Sans"),
        (2, "Regular"),
        (3, "Ascender - Open Sans Build 100"),
        (4, "Open Sans"),
        (5, "Version 1.10"),
        (6, "OpenSans"),
        (7, "Open Sans is a trademark of Google and may be registered in certain jurisdictions."),
        (8, "Ascender Corporation"),
        (11, "http://www.ascendercorp.com/"),
        (12, "http://www.ascendercorp.com/typedesigners.html"),
        (13, "Licensed under the Apache License, Version 2.0"),
        (14, "http://www.apache.org/licenses/LICENSE-2.0"),
    ]);
    let buf = font_with_name_table(&name);
    let font = Font::from_buffer(&buf).expect("unable to parse font");
    let tbl: Name = font.get_table().unwrap().expect("Failed to read Name table");

    assert_eq!(
        &tbl.get_copyright().unwrap(),
        "Digitized data copyright \u{a9} 2010-2011, Google Corporation."
    );
    assert_eq!(&tbl.get_family().unwrap(), "Open Sans");
    assert_eq!(&tbl.get_subfamily().unwrap(), "Regular");
    assert_eq!(&tbl.get_identifier().unwrap(), "Ascender - Open Sans Build 100");
    assert_eq!(&tbl.get_full_name().unwrap(), "Open Sans");
    assert_eq!(&tbl.get_version().unwrap(), "Version 1.10");
    assert_eq!(&tbl.get_postscript_name().unwrap(), "OpenSans");
    assert_eq!(
        &tbl.get_trademark().unwrap(),
        "Open Sans is a trademark of Google and may be registered in certain jurisdictions."
    );
    assert_eq!(&tbl.get_manufacturer().unwrap(), "Ascender Corporation");
    assert_eq!(&tbl.get_vender_url().unwrap(), "http://www.ascendercorp.com/");
    assert_eq!(
        &tbl.get_designer_url().unwrap(),
        "http://www.ascendercorp.com/typedesigners.html"
    );
    assert_eq!(&tbl.get_license().unwrap(), "Licensed under the Apache License, Version 2.0");
    assert_eq!(&tbl.get_license_url().unwrap(), "http://www.apache.org/licenses/LICENSE-2.0");
}

#[test]
fn names_roboto() {
    let name = name_table(&[
        (0, "Digitized data copyright \u{a9} 2007, Google Corporation."),
        (1, "Droid Serif"),
        (2, "Regular"),
        (3, "Ascender - Droid Serif"),
        (4, "Droid Serif"),
        (5, "Version 1.00 build 112"),
        (6, "DroidSerif"),
        (7, "Droid is a trademark of Google and may be registered in certain jurisdictions."),
        (8, "Ascender Corporation"),
        (
            10,
            "Droid Serif is a contemporary serif typeface family designed for comfortable reading on screen. Droid Serif is slightly condensed to maximize the amount of text displayed on small screens. Vertical stress and open forms contribute to its readability while its proportion and overall design complement its companion Droid Sans.",
        ),
        (11, "http://www.ascendercorp.com/"),
        (12, "http://www.ascendercorp.com/typedesigners.html"),
        (13, "Licensed under the Apache License, Version 2.0"),
        (14, "http://www.apache.org/licenses/LICENSE-2.0"),
    ]);
    let buf = font_with_name_table(&name);
    let font = Font::from_buffer(&buf).expect("unable to parse font");
    let tbl: Name = font.get_table().unwrap().expect("Failed to read Name table");

    assert_eq!(
        &tbl.get_copyright().unwrap(),
        "Digitized data copyright \u{a9} 2007, Google Corporation."
    );
    assert_eq!(&tbl.get_family().unwrap(), "Droid Serif");
    assert_eq!(&tbl.get_subfamily().unwrap(), "Regular");
    assert_eq!(&tbl.get_identifier().unwrap(), "Ascender - Droid Serif");
    assert_eq!(&tbl.get_full_name().unwrap(), "Droid Serif");
    assert_eq!(&tbl.get_version().unwrap(), "Version 1.00 build 112");
    assert_eq!(&tbl.get_postscript_name().unwrap(), "DroidSerif");
    assert_eq!(
        &tbl.get_trademark().unwrap(),
        "Droid is a trademark of Google and may be registered in certain jurisdictions."
    );
    assert_eq!(&tbl.get_manufacturer().unwrap(), "Ascender Corporation");
    assert_eq!(
        &tbl.get_description().unwrap(),
        "Droid Serif is a contemporary serif typeface family designed for comfortable reading on screen. Droid Serif is slightly condensed to maximize the amount of text displayed on small screens. Vertical stress and open forms contribute to its readability while its proportion and overall design complement its companion Droid Sans."
    );
    assert_eq!(&tbl.get_vender_url().unwrap(), "http://www.ascendercorp.com/");
    assert_eq!(
        &tbl.get_designer_url().unwrap(),
        "http://www.ascendercorp.com/typedesigners.html"
    );
    assert_eq!(&tbl.get_license().unwrap(), "Licensed under the Apache License, Version 2.0");
    assert_eq!(&tbl.get_license_url().unwrap(), "http://www.apache.org/licenses/LICENSE-2.0");
}

#[test]
fn family_name_scenario() {
    // A buffer with exactly one table record (tag "name") whose table holds
    // one record: platform 1, encoding 0, language 0, name id 1, length 4,
    // offset 0, with storage bytes "Test".
    let name = name_table(&[(1, "Test")]);
    let buf = font_with_name_table(&name);
    let font = Font::from_buffer(&buf).expect("unable to parse font");
    let tbl: Name = font.get_table().unwrap().expect("Failed to read Name table");
    assert_eq!(tbl.get_family().unwrap(), "Test");
}

#[test]
fn mac_roman_decoding() {
    // Pure ASCII decodes identically to the raw bytes as text.
    let name = name_table(&[(1, "Plain ASCII 0123")]);
    let buf = font_with_name_table(&name);
    let font = Font::from_buffer(&buf).expect("unable to parse font");
    let tbl: Name = font.get_table().unwrap().expect("Failed to read Name table");
    assert_eq!(tbl.get_family().unwrap(), "Plain ASCII 0123");

    // Byte 0x80 decodes to the first Mac-Roman high-byte mapping entry.
    let mut raw = Vec::new();
    be16(&mut raw, 0);
    be16(&mut raw, 1);
    be16(&mut raw, 6 + 12);
    be16(&mut raw, 1); // platform
    be16(&mut raw, 0); // encoding
    be16(&mut raw, 0); // language
    be16(&mut raw, 1); // name id: family
    be16(&mut raw, 1); // length
    be16(&mut raw, 0); // offset
    raw.push(0x80);
    let buf = font_with_name_table(&raw);
    let font = Font::from_buffer(&buf).expect("unable to parse font");
    let tbl: Name = font.get_table().unwrap().expect("Failed to read Name table");
    assert_eq!(tbl.get_family().unwrap(), "\u{c4}");
}

#[test]
fn name_lookup_misses() {
    // Only a Windows-platform record: Macintosh/Roman lookup reports "not
    // found" rather than decoding it.
    let mut raw = Vec::new();
    be16(&mut raw, 0);
    be16(&mut raw, 1);
    be16(&mut raw, 6 + 12);
    be16(&mut raw, 3); // platform: Windows
    be16(&mut raw, 1);
    be16(&mut raw, 0);
    be16(&mut raw, 1);
    be16(&mut raw, 2);
    be16(&mut raw, 0);
    raw.extend_from_slice(b"Hi");
    let buf = font_with_name_table(&raw);
    let font = Font::from_buffer(&buf).expect("unable to parse font");
    let tbl: Name = font.get_table().unwrap().expect("Failed to read Name table");
    assert_eq!(tbl.get_family(), None);

    // A record whose string range runs past the table is reported absent,
    // not decoded out of bounds.
    let mut oob = Vec::new();
    be16(&mut oob, 0);
    be16(&mut oob, 1);
    be16(&mut oob, 6 + 12);
    be16(&mut oob, 1);
    be16(&mut oob, 0);
    be16(&mut oob, 0);
    be16(&mut oob, 1);
    be16(&mut oob, 50); // length larger than the storage
    be16(&mut oob, 0);
    oob.extend_from_slice(b"shrt");
    let buf = font_with_name_table(&oob);
    let font = Font::from_buffer(&buf).expect("unable to parse font");
    let tbl: Name = font.get_table().unwrap().expect("Failed to read Name table");
    assert_eq!(tbl.get_family(), None);
}

#[test]
fn name_records_enumerate() {
    let name = name_table(&[(1, "One"), (5, "Two")]);
    let buf = font_with_name_table(&name);
    let font = Font::from_buffer(&buf).expect("unable to parse font");
    let tbl: Name = font.get_table().unwrap().expect("Failed to read Name table");
    let mut names = tbl.names().expect("records must fit");
    let first = names.next().expect("first record");
    assert_eq!(first.platform_id, 1);
    assert_eq!(first.name_id, 1);
    assert_eq!(first.length, 3);
    assert_eq!(first.offset, 0);
    let second = names.next().expect("second record");
    assert_eq!(second.name_id, 5);
    assert_eq!(second.offset, 3);
    assert!(names.next().is_none());

    // A table promising more records than it holds fails with EOF.
    let mut short = Vec::new();
    be16(&mut short, 0);
    be16(&mut short, 9); // count: far more than the bytes hold
    be16(&mut short, 6);
    let buf = font_with_name_table(&short);
    let font = Font::from_buffer(&buf).expect("unable to parse font");
    let tbl: Name = font.get_table().unwrap().expect("Failed to read Name table");
    match tbl.names() {
        Err(Error::UnexpectedEof) => {}
        _ => panic!("too many records must be EOF"),
    }
}

#[test]
fn name_id_mapping() {
    assert_eq!(NameId::from(0), NameId::Copyright);
    assert_eq!(NameId::from(1), NameId::Family);
    assert_eq!(NameId::from(14), NameId::LicenseUrl);
    assert_eq!(NameId::from(15), NameId::Unrecognized);
    assert_eq!(NameId::from(16), NameId::TypographicFamily);
    assert_eq!(NameId::from(25), NameId::VariationsPostScriptNamePrefix);
    assert_eq!(NameId::from(26), NameId::Unrecognized);
    assert_eq!(NameId::from(0x07FF), NameId::Unrecognized);
}
