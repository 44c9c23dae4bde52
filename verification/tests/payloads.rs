use vfbread::buffer::EntryReader;
use vfbread::glyph::{GlyphEntry, HintMask, Node};
use vfbread::names::NameRecord;
use vfbread::truetype::{TrueTypeOptions, TrueTypeValue};
use vfbread::VfbError;

fn reader(bytes: &[u8], masters: usize) -> EntryReader {
    EntryReader::new(bytes.to_vec(), masters)
}

#[test]
fn test_glyph_header_rejected() {
    let mut er = reader(&[1, 2, 3, 4, 0x0f], 1);
    let r = er.read_glyph();
    match r {
        Err(VfbError::InvalidGlyphHeader(b)) => assert_eq!(b, vec![1, 2, 3, 4]),
        _ => panic!("expected the glyph header to be rejected"),
    }
    // Exactly the four preamble bytes were consumed.
    assert_eq!(er.stream_position(), 4);
}

#[test]
fn test_glyph_name_and_metrics() {
    let mut bytes = vec![1, 9, 7, 1];
    bytes.push(1); // glyph name: length 3, then the text
    bytes.extend_from_slice(&[0x8e]);
    bytes.extend_from_slice(b"abc");
    bytes.push(2); // metrics: one (lsb, width) pair for the one master
    bytes.extend_from_slice(&[0xbd, 0xf8, 0x88]); // 50, 500
    bytes.push(0x0f);
    let entries = reader(&bytes, 1).read_glyph().unwrap();
    assert_eq!(entries.len(), 2);
    match &entries[0] {
        GlyphEntry::GlyphName(s) => assert_eq!(s, "abc"),
        _ => panic!("expected the glyph name"),
    }
    match &entries[1] {
        GlyphEntry::Metrics(m) => assert_eq!(m, &vec![(50, 500)]),
        _ => panic!("expected the metrics"),
    }
}

#[test]
fn test_glyph_unknown_subkey_skipped() {
    // Sub-key 7 is not in the glyph catalogue: it consumes nothing.
    let bytes = vec![1, 9, 7, 1, 7, 0x0f];
    let entries = reader(&bytes, 1).read_glyph().unwrap();
    assert_eq!(entries.len(), 0);
}

#[test]
fn test_glyph_name_negative_length_overflows() {
    let r = reader(&[0x8a], 1).read_str_with_len();
    assert!(matches!(r, Err(VfbError::Overflow(_))));
}

#[test]
fn test_outlines_accumulator_runs_on() {
    // One layer, the skipped word, two line nodes with deltas
    // (10, 20) and (5, -5): the second node lands at (15, 15).
    let bytes = vec![0x8c, 0x8b, 0x8d, 0x11, 0x95, 0x9f, 0x01, 0x90, 0x86];
    let nodes = reader(&bytes, 1).read_outlines().unwrap();
    assert_eq!(nodes.len(), 2);
    match &nodes[0] {
        Node::Line { coords, flags } => {
            assert_eq!(coords, &vec![(10, 20)]);
            assert_eq!(*flags, 1);
        },
        _ => panic!("expected a line node"),
    }
    match &nodes[1] {
        Node::Line { coords, flags } => {
            assert_eq!(coords, &vec![(15, 15)]);
            assert_eq!(*flags, 0);
        },
        _ => panic!("expected a line node"),
    }
}

#[test]
fn test_outlines_rerun_is_identical() {
    let bytes = vec![0x8c, 0x8b, 0x8d, 0x11, 0x95, 0x9f, 0x03, 0x90, 0x86, 0x8c, 0x8c, 0x8d, 0x8d];
    let first = reader(&bytes, 1).read_outlines().unwrap();
    let second = reader(&bytes, 1).read_outlines().unwrap();
    assert_eq!(format!("{:?}", coords_of(&first)), format!("{:?}", coords_of(&second)));
}

fn coords_of(nodes: &[Node]) -> Vec<Vec<(i32, i32)>> {
    nodes
        .iter()
        .map(|n| match n {
            Node::Move { coords, .. } => coords.clone(),
            Node::Line { coords, .. } => coords.clone(),
            Node::Curve { coords, .. } => coords.clone(),
            Node::QCurve { coords, .. } => coords.clone(),
        })
        .collect()
}

#[test]
fn test_outlines_curve_reads_control_points() {
    // One layer, one curve node: end point (1, 1), controls (2, 2), (3, 3).
    let bytes = vec![0x8c, 0x8b, 0x8c, 0x03, 0x8c, 0x8c, 0x8c, 0x8c, 0x8c, 0x8c];
    let nodes = reader(&bytes, 1).read_outlines().unwrap();
    match &nodes[0] {
        Node::Curve { coords, c1_coords, c2_coords, flags } => {
            assert_eq!(coords, &vec![(1, 1)]);
            assert_eq!(c1_coords, &vec![(2, 2)]);
            assert_eq!(c2_coords, &vec![(3, 3)]);
            assert_eq!(*flags, 0);
        },
        _ => panic!("expected a curve node"),
    }
}

#[test]
fn test_outlines_invalid_command() {
    let bytes = vec![0x8c, 0x8b, 0x8c, 0x02];
    let r = reader(&bytes, 1).read_outlines();
    assert!(matches!(r, Err(VfbError::InvalidPathCommand(2))));
}

#[test]
fn test_hints_with_masks() {
    // One horizontal hint (1, 2), no vertical hints, one horizontal mask 7.
    let bytes = vec![0x8c, 0x8c, 0x8d, 0x8b, 0x8c, 0x01, 0x92];
    let hints = reader(&bytes, 1).read_hints().unwrap();
    assert_eq!(hints.horizontal.len(), 1);
    assert_eq!(hints.horizontal[0][0].position, 1);
    assert_eq!(hints.horizontal[0][0].width, 2);
    assert_eq!(hints.vertical.len(), 0);
    assert_eq!(hints.masks.len(), 1);
    assert!(matches!(hints.masks[0], HintMask::Horizontal(7)));
}

#[test]
fn test_hints_unknown_mask_key_dropped() {
    // One mask slot whose sub-key 9 is unknown: nothing more is consumed.
    let bytes = vec![0x8b, 0x8b, 0x8c, 0x09];
    let hints = reader(&bytes, 1).read_hints().unwrap();
    assert_eq!(hints.masks.len(), 0);
}

#[test]
fn test_kerning_pairs() {
    // One pair: right glyph 65, one kern value -10.
    let bytes = vec![0x8c, 0xcc, 0x81];
    let kerning = reader(&bytes, 1).read_kerning().unwrap();
    assert_eq!(kerning.len(), 1);
    assert_eq!(kerning[&65], vec![-10]);
}

#[test]
fn test_components_scales_are_double_bits() {
    let mut bytes = vec![0x8c, 0x8e]; // one component, glyph index 3
    bytes.extend_from_slice(&[0x8c, 0x8d]); // offsets (1, 2)
    bytes.extend_from_slice(&1.5f64.to_le_bytes());
    bytes.extend_from_slice(&(-2.0f64).to_le_bytes());
    let comps = reader(&bytes, 1).read_components().unwrap();
    assert_eq!(comps.len(), 1);
    assert_eq!(comps[0].glyph_index, 3);
    assert_eq!(comps[0].x_offset, vec![1]);
    assert_eq!(comps[0].y_offset, vec![2]);
    assert_eq!(f64::from_bits(comps[0].x_scale_bits[0]), 1.5);
    assert_eq!(f64::from_bits(comps[0].y_scale_bits[0]), -2.0);
}

#[test]
fn test_guides_positions_and_angles() {
    // One horizontal guide at position 100 with raw angle 10000 (45
    // degrees once atan2(raw, 10000) is applied), no vertical guides.
    let bytes = vec![0x8c, 0xef, 0xff, 0x00, 0x00, 0x27, 0x10, 0x8b];
    let guides = reader(&bytes, 1).read_guides().unwrap();
    assert_eq!(guides.horizontal.len(), 1);
    assert_eq!(guides.horizontal[0][0].position, 100);
    assert_eq!(guides.horizontal[0][0].angle_value, 10000);
    assert_eq!(guides.vertical.len(), 0);
}

#[test]
fn test_anchors_fan_out() {
    // Two anchors, one master each: (1, 2) and (3, 4).
    let bytes = vec![0x8d, 0x8c, 0x8c, 0x8d, 0x8e, 0x8f];
    let anchors = reader(&bytes, 1).read_anchors().unwrap();
    assert_eq!(anchors.len(), 2);
    assert_eq!((anchors[0][0].x, anchors[0][0].y), (1, 2));
    assert_eq!((anchors[1][0].x, anchors[1][0].y), (3, 4));
}

#[test]
fn test_anchors_supplemental() {
    let bytes = vec![0x8c, 0x90, 0x8b];
    let sup = reader(&bytes, 1).read_anchors_supplemental().unwrap();
    assert_eq!(sup.len(), 1);
    assert_eq!((sup[0].hue, sup[0].reserved), (5, 0));
}

#[test]
fn test_namerecord_mac_roman() {
    let rec = NameRecord::new(1, 0, 0, 4, &[0x41, 0xa9]);
    assert_eq!(rec.string, "A\u{a9}");
    assert_eq!(rec.platform_id, 1);
    assert_eq!(rec.name_id, 4);
}

#[test]
fn test_namerecord_utf16() {
    let rec = NameRecord::new(3, 1, 0x409, 1, &[0x20ac, 0x41]);
    assert_eq!(rec.string, "\u{20ac}A");
}

#[test]
fn test_namerecords_stream() {
    // One record: platform 1, encoding 0, language 0, name id 1, two
    // Mac Roman code points.
    let bytes = vec![0x8c, 0x8c, 0x8b, 0x8b, 0x8c, 0x8d, 0xcc, 0xf7, 0x3d];
    let records = reader(&bytes, 1).read_namerecords().unwrap();
    assert_eq!(records.len(), 1);
    assert_eq!(records[0].platform_id, 1);
    assert_eq!(records[0].string, "A\u{a9}");
}

#[test]
fn test_truetype_values_list() {
    let bytes = vec![0x33, 0x90, 0x32]; // MaxZones 5, then the terminator
    let values = reader(&bytes, 1).read_truetype_values().unwrap();
    assert_eq!(values.len(), 1);
    assert!(matches!(values[0], TrueTypeValue::MaxZones(5)));
}

#[test]
fn test_truetype_unknown_subkey_is_error() {
    let bytes = vec![0x55, 0x8b, 0x32];
    let r = reader(&bytes, 1).read_truetype_values();
    assert!(matches!(r, Err(VfbError::UnknownEntryKey(0x55))));
}

#[test]
fn test_truetype_head_flags_packing() {
    // The encoded value 0xFFFF0001: options in the high half (masked to
    // the defined bits), head flags in the low half.
    let bytes = vec![0x39, 0xff, 0xff, 0xff, 0x00, 0x01, 0x32];
    let values = reader(&bytes, 1).read_truetype_values().unwrap();
    match &values[0] {
        TrueTypeValue::HeadFlags(p) => {
            assert_eq!(p.0.bits, 0x7);
            assert_eq!(p.1, 1);
        },
        _ => panic!("expected the head flags"),
    }
}

#[test]
fn test_truetype_panose() {
    let mut bytes = vec![0x4c];
    bytes.extend_from_slice(&[2, 0, 5, 3, 0, 0, 0, 0, 0, 0xff]);
    bytes.push(0x32);
    let values = reader(&bytes, 1).read_truetype_values().unwrap();
    match &values[0] {
        TrueTypeValue::Os2Panose(v) => {
            assert_eq!(v, &vec![2, 0, 5, 3, 0, 0, 0, 0, 0, -1]);
        },
        _ => panic!("expected the PANOSE tuple"),
    }
}

#[test]
fn test_truetype_hdmx_ppms() {
    let bytes = vec![0x53, 0x8d, 0x09, 0x0a, 0x32];
    let values = reader(&bytes, 1).read_truetype_values().unwrap();
    match &values[0] {
        TrueTypeValue::HdmxPPMs1(v) => assert_eq!(v, &vec![9, 10]),
        _ => panic!("expected the hdmx list"),
    }
}

#[test]
fn test_truetype_codepages() {
    let bytes = vec![0x54, 0x8c, 0x8d, 0x32];
    let values = reader(&bytes, 1).read_truetype_values().unwrap();
    assert!(matches!(values[0], TrueTypeValue::Os2UlCodePageRange((1, 2))));
}

#[test]
fn test_truetype_options_truncate() {
    assert_eq!(TrueTypeOptions::from_bits_truncate(0xff).bits, 0x7);
}

#[test]
fn test_master_fan_out_two_masters() {
    // Metrics with two masters: two (lsb, width) pairs.
    let bytes = vec![0x8c, 0x8d, 0x8e, 0x8f];
    let metrics = reader(&bytes, 2).read_glyph_metrics().unwrap();
    assert_eq!(metrics, vec![(1, 2), (3, 4)]);
}

#[test]
fn test_scoped_window_limits_reads() {
    let mut r = vfbread::buffer::VfbReader::new(vec![0x8c, 0x8d, 0x8e, 0x8f]);
    let mut sub = r.scoped(2).unwrap();
    assert_eq!(r.stream_position(), 2);
    assert_eq!(sub.read_value().unwrap(), 1);
    assert_eq!(sub.read_value().unwrap(), 2);
    // The window ends after its two declared bytes.
    assert!(matches!(sub.read_value(), Err(VfbError::ReadError)));
    // The parent reads on past the window.
    assert_eq!(r.read_value().unwrap(), 3);
}

#[test]
fn test_unicode_ranges_quad() {
    let bytes = vec![1, 0, 0, 0, 2, 0, 0, 0, 3, 0, 0, 0, 0xff, 0xff, 0xff, 0xff];
    let q = reader(&bytes, 1).read_unicode_ranges().unwrap();
    assert_eq!(q, (1, 2, 3, 0xffff_ffff));
}

#[test]
fn test_binary_table_tag_order() {
    let mut bytes = b"cvt ".to_vec();
    bytes.extend_from_slice(&[9, 8, 7]);
    let (tag, rest) = reader(&bytes, 1).read_binary_table().unwrap();
    assert_eq!(tag, b"cvt ".to_vec());
    assert_eq!(rest, vec![9, 8, 7]);
}
