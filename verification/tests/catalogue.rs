use vfbread::glyph::{GlyphEntry, HintMask};
use vfbread::postscript::{PostScriptGlobalHintingOptions, PostScriptGlyphHintingOptions};
use vfbread::truetype::TrueTypeValue;
use vfbread::vfb_constants::key_name;

#[test]
fn test_key_name_lookup() {
    assert_eq!(key_name(1503), Some("Master Count"));
    assert_eq!(key_name(1026), Some("font_name"));
    assert_eq!(key_name(5), Some("EOF"));
    assert_eq!(key_name(2001), Some("Glyph"));
    assert_eq!(key_name(9999), None);
}

#[test]
fn test_glyph_entry_key_variant_round_trip() {
    for key in [1u16, 2, 3, 4, 5, 6, 8, 9, 10] {
        let name = GlyphEntry::key_to_variant(key).unwrap();
        assert_eq!(GlyphEntry::variant_to_key(name), Some(key));
    }
    assert_eq!(GlyphEntry::key_to_variant(7), None);
    assert_eq!(GlyphEntry::variant_to_key("NoSuchVariant"), None);
}

#[test]
fn test_glyph_entry_names() {
    assert_eq!(GlyphEntry::key_to_variant(1), Some("GlyphName"));
    assert_eq!(GlyphEntry::key_to_variant(8), Some("Outlines"));
}

#[test]
fn test_hint_mask_key_variant_round_trip() {
    for key in [1u16, 2, 0xff] {
        let name = HintMask::key_to_variant(key).unwrap();
        assert_eq!(HintMask::variant_to_key(name), Some(key));
    }
    assert_eq!(HintMask::key_to_variant(3), None);
}

#[test]
fn test_truetype_key_variant_round_trip() {
    let mut keys: Vec<u16> = (0x33..=0x54).collect();
    keys.extend_from_slice(&[0x56, 0x57, 0x58, 0x5c]);
    for key in keys {
        let name = TrueTypeValue::key_to_variant(key).unwrap();
        assert_eq!(TrueTypeValue::variant_to_key(name), Some(key));
    }
    assert_eq!(TrueTypeValue::key_to_variant(0x55), None);
    assert_eq!(TrueTypeValue::key_to_variant(0x32), None);
}

#[test]
fn test_truetype_variant_names() {
    assert_eq!(TrueTypeValue::key_to_variant(0x33), Some("MaxZones"));
    assert_eq!(TrueTypeValue::key_to_variant(0x5c), Some("AverageWidth"));
}

#[test]
fn test_postscript_global_options_mask() {
    assert_eq!(PostScriptGlobalHintingOptions::from(3u16).bits, 1);
    assert_eq!(PostScriptGlobalHintingOptions::from(0u16).bits, 0);
}

#[test]
fn test_postscript_glyph_options_mask() {
    assert_eq!(PostScriptGlyphHintingOptions::from(0xffff_ffffu32).bits, 0xe000_0000);
    assert_eq!(PostScriptGlyphHintingOptions::from(1u32 << 29).bits, 1 << 29);
}
