use vstd::prelude::*;

verus! {

/// The global PostScript hinting options word. Only the defined bit is
/// kept: bit 0 generates Flex hints automatically.
pub struct PostScriptGlobalHintingOptions {
    pub bits: u16,
}

impl From<u16> for PostScriptGlobalHintingOptions {
    fn from(value: u16) -> (r: PostScriptGlobalHintingOptions) {
        PostScriptGlobalHintingOptions { bits: value & 0x1 }
    }
}

impl vstd::std_specs::convert::FromSpecImpl<u16> for PostScriptGlobalHintingOptions {
    open spec fn obeys_from_spec() -> bool {
        true
    }

    open spec fn from_spec(value: u16) -> PostScriptGlobalHintingOptions {
        PostScriptGlobalHintingOptions { bits: value & 0x1 }
    }
}

/// The per-glyph PostScript hinting options word. Only the defined bits
/// are kept: bit 29 hint replacement, bit 30 horizontal three-stem, bit
/// 31 vertical three-stem.
pub struct PostScriptGlyphHintingOptions {
    pub bits: u32,
}

impl From<u32> for PostScriptGlyphHintingOptions {
    fn from(value: u32) -> (r: PostScriptGlyphHintingOptions) {
        PostScriptGlyphHintingOptions { bits: value & 0xE000_0000 }
    }
}

impl vstd::std_specs::convert::FromSpecImpl<u32> for PostScriptGlyphHintingOptions {
    open spec fn obeys_from_spec() -> bool {
        true
    }

    open spec fn from_spec(value: u32) -> PostScriptGlyphHintingOptions {
        PostScriptGlyphHintingOptions { bits: value & 0xE000_0000 }
    }
}

} // verus!
