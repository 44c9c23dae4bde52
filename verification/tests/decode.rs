use std::collections::HashMap;

use vfbread::buffer::VfbReader;
use vfbread::decode_vfb;
use vfbread::entries::{decompile, VfbEntryType};
use vfbread::entry::VfbEntry;
use vfbread::VfbError;

/// A minimal header in the older layout: the chunk does not end in
/// 0x0A 0x00, so the synthetic creator defaults are substituted.
fn old_header() -> Vec<u8> {
    let mut h = vec![0x1a];
    h.extend_from_slice(b"WLF10");
    h.extend_from_slice(&[0x0a, 0x00]); // format marker 10
    h.extend_from_slice(&[0x02, 0x00]); // chunk length 2
    h.extend_from_slice(&[0x07, 0x08]); // chunk bytes
    h.extend_from_slice(&[0x2c, 0x01]); // final tail 300
    h
}

#[test]
fn test_header_old_layout_defaults() {
    let mut r = VfbReader::new(old_header());
    let h = r.read_header().unwrap();
    assert_eq!(h.header0, 0x1a);
    assert_eq!(h.filetype, "WLF10");
    assert_eq!(h.header1, 10);
    assert_eq!(h.chunk1, vec![0x07, 0x08]);
    assert_eq!(h.creator, HashMap::from([(1, 1), (2, 0x05030001), (3, 0)]));
    assert_eq!(h.end0, 6);
    assert_eq!(h.end1, 1);
    assert_eq!(h.end2, 300);
}

#[test]
fn test_header_with_creator_map() {
    let mut bytes = vec![0x1a];
    bytes.extend_from_slice(b"WLF10");
    bytes.extend_from_slice(&[0x03, 0x00]); // format marker 3
    bytes.extend_from_slice(&[0x02, 0x00]); // chunk length 2
    bytes.extend_from_slice(&[0x0a, 0x00]); // chunk ends in 0A 00
    bytes.extend_from_slice(&[0x05, 0x00]); // announced creator length
    bytes.extend_from_slice(&[0x01, 0x8c, 0x00]); // creator {1: 1}
    bytes.extend_from_slice(&[0x06, 0x01]); // the two trailers
    bytes.extend_from_slice(&[0x00, 0x00]); // final tail
    let mut r = VfbReader::new(bytes);
    let h = r.read_header().unwrap();
    assert_eq!(h.creator, HashMap::from([(1, 1)]));
    assert_eq!(h.end0, 6);
    assert_eq!(h.end1, 1);
    assert_eq!(h.end2, 0);
}

#[test]
fn test_header_short_input_fails() {
    let mut r = VfbReader::new(vec![0x1a, b'W', b'L']);
    assert!(matches!(r.read_header(), Err(VfbError::ReadError)));
}

#[test]
fn test_document_eof_only() {
    let mut bytes = old_header();
    // An unknown key 0 with an empty payload, then the EOF marker.
    bytes.extend_from_slice(&[0x00, 0x00, 0x00, 0x00]);
    bytes.extend_from_slice(&[0x05, 0x00, 0x00, 0x00]);
    let vfb = decode_vfb(bytes).unwrap();
    assert_eq!(vfb.entries.len(), 0);
    assert_eq!(vfb.header.filetype, "WLF10");
}

#[test]
fn test_document_typed_entries() {
    let mut bytes = old_header();
    // upm (key 1135), two payload bytes holding 1000.
    bytes.extend_from_slice(&[0x6f, 0x04, 0x02, 0x00, 0xe8, 0x03]);
    // font_name (key 1026), three payload bytes of text.
    bytes.extend_from_slice(&[0x02, 0x04, 0x03, 0x00]);
    bytes.extend_from_slice(b"Foo");
    // Encoding (key 1500): glyph index 65, then the glyph name.
    bytes.extend_from_slice(&[0xdc, 0x05, 0x03, 0x00, 0x41, 0x00, 0x41]);
    // 518 (known key) with an empty payload stays raw.
    bytes.extend_from_slice(&[0x06, 0x02, 0x00, 0x00]);
    bytes.extend_from_slice(&[0x05, 0x00, 0x00, 0x00]);
    let vfb = decode_vfb(bytes).unwrap();
    assert_eq!(vfb.entries.len(), 4);
    assert_eq!(vfb.entries[0].key, "upm");
    assert!(matches!(vfb.entries[0].entry, VfbEntryType::UInt16(1000)));
    assert_eq!(vfb.entries[1].key, "font_name");
    match &vfb.entries[1].entry {
        VfbEntryType::Str(s) => assert_eq!(s, "Foo"),
        _ => panic!("expected a text payload"),
    }
    assert_eq!(vfb.entries[2].key, "Encoding");
    match &vfb.entries[2].entry {
        VfbEntryType::Encoding(p) => {
            assert_eq!(p.0, 65);
            assert_eq!(p.1, "A");
        },
        _ => panic!("expected an encoding payload"),
    }
    assert_eq!(vfb.entries[3].key, "518");
    match &vfb.entries[3].entry {
        VfbEntryType::Raw(raw) => assert_eq!(raw.0.len(), 0),
        _ => panic!("expected a raw payload"),
    }
}

#[test]
fn test_document_unknown_key_skipped() {
    let mut bytes = old_header();
    // Key 0xABCD: the high bit selects a 32-bit size; three payload bytes.
    bytes.extend_from_slice(&[0xcd, 0xab, 0x03, 0x00, 0x00, 0x00, 0x09, 0x09, 0x09]);
    bytes.extend_from_slice(&[0x6f, 0x04, 0x02, 0x00, 0xe8, 0x03]);
    bytes.extend_from_slice(&[0x05, 0x00, 0x00, 0x00]);
    let vfb = decode_vfb(bytes).unwrap();
    assert_eq!(vfb.entries.len(), 1);
    assert_eq!(vfb.entries[0].key, "upm");
}

#[test]
fn test_read_entry_cursor_lands_past_declared_size() {
    let mut r = VfbReader::new(vec![0xcd, 0xab, 0x03, 0x00, 0x00, 0x00, 0x09, 0x09, 0x09]);
    let e = r.read_entry().unwrap();
    assert!(e.is_none());
    // Two key bytes, four size bytes, three payload bytes.
    assert_eq!(r.stream_position(), 9);
}

#[test]
fn test_read_entry_narrow_size() {
    let mut r = VfbReader::new(vec![0x6f, 0x04, 0x02, 0x00, 0xe8, 0x03]);
    let e = r.read_entry().unwrap().unwrap();
    assert_eq!(e.key, "upm");
    // Two key bytes, two size bytes, two payload bytes.
    assert_eq!(r.stream_position(), 6);
}

#[test]
fn test_document_truncated_entry_fails() {
    let mut bytes = old_header();
    bytes.extend_from_slice(&[0x6f, 0x04, 0x08, 0x00, 0xe8]);
    let f = match decode_vfb(bytes) {
        Err(f) => f,
        Ok(_) => panic!("expected a failure"),
    };
    assert!(matches!(f.error, VfbError::ReadError));
    // The failing entry is named, and the offset points at the failure:
    // right after the fourteen header bytes and the four frame bytes.
    assert_eq!(f.context, "upm");
    assert_eq!(f.offset, 18);
}

#[test]
fn test_document_short_header_is_located() {
    let f = match decode_vfb(vec![0x1a, b'W', b'L']) {
        Err(f) => f,
        Ok(_) => panic!("expected a failure"),
    };
    assert!(matches!(f.error, VfbError::ReadError));
    assert_eq!(f.context, "header");
}

#[test]
fn test_document_axis_count_is_typed() {
    let mut bytes = old_header();
    // Axis Count (key 1513), two payload bytes holding 2.
    bytes.extend_from_slice(&[0xe9, 0x05, 0x02, 0x00, 0x02, 0x00]);
    bytes.extend_from_slice(&[0x05, 0x00, 0x00, 0x00]);
    let vfb = decode_vfb(bytes).unwrap();
    assert_eq!(vfb.entries.len(), 1);
    assert_eq!(vfb.entries[0].key, "Axis Count");
    assert!(matches!(vfb.entries[0].entry, VfbEntryType::UInt16(2)));
}

#[test]
fn test_decompile_axis_count() {
    match decompile("Axis Count", &[0xe8, 0x03]).unwrap().unwrap() {
        VfbEntryType::UInt16(v) => assert_eq!(v, 1000),
        _ => panic!("expected a 16-bit payload"),
    }
}

#[test]
fn test_decompile_uint16_consumes_two_bytes() {
    let mut r = VfbReader::new(vec![0xe8, 0x03, 0xaa]);
    r.decompile_uint16().unwrap();
    assert_eq!(r.stream_position(), 2);
}

#[test]
fn test_decompile_string_consumes_remainder() {
    let mut r = VfbReader::new(vec![b'h', b'i']);
    r.decompile_string().unwrap();
    assert_eq!(r.stream_position(), 2);
}

#[test]
fn test_decompile_unknown_key_keeps_raw() {
    assert!(decompile("no such key", &[1, 2, 3]).unwrap().is_none());
}

#[test]
fn test_decompile_empty_payload_keeps_raw() {
    assert!(decompile("upm", &[]).unwrap().is_none());
}

#[test]
fn test_decompile_uint16_short_payload_fails() {
    assert!(matches!(decompile("upm", &[0x01]), Err(VfbError::ReadError)));
}

#[test]
fn test_decompile_string_key() {
    match decompile("notice", b"hi").unwrap().unwrap() {
        VfbEntryType::Str(s) => assert_eq!(s, "hi"),
        _ => panic!("expected a text payload"),
    }
}

#[test]
fn test_new_from_data_without_decompiling() {
    let e = VfbEntry::new_from_data("upm".to_owned(), vec![0xe8, 0x03], false).unwrap();
    assert!(matches!(e.entry, VfbEntryType::Raw(_)));
}

#[test]
fn test_entry_decompile_in_place() {
    let mut e = VfbEntry::new_from_data("upm".to_owned(), vec![0xe8, 0x03], false).unwrap();
    e.decompile().unwrap();
    assert!(matches!(e.entry, VfbEntryType::UInt16(1000)));
}

#[test]
fn test_new_from_decompiled() {
    let e = VfbEntry::new_from_decompiled("upm".to_owned(), VfbEntryType::UInt16(7));
    assert_eq!(e.key, "upm");
    assert!(matches!(e.entry, VfbEntryType::UInt16(7)));
}

#[test]
fn test_error_label() {
    assert_eq!(VfbError::ReadError.label(), "read error: not enough bytes");
}

#[test]
fn test_document_truncated_frame_context() {
    let mut bytes = old_header();
    bytes.push(0xcd); // a lone key byte: the frame itself cannot be read
    let f = match decode_vfb(bytes) {
        Err(f) => f,
        Ok(_) => panic!("expected a failure"),
    };
    assert!(matches!(f.error, VfbError::ReadError));
    assert_eq!(f.context, "entry stream");
    assert_eq!(f.offset, 14);
}
