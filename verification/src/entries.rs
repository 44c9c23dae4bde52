use vstd::prelude::*;

use crate::buffer::{
    spec_read_bytes, spec_read_u16, spec_remainder_len, win1252_of, VfbReader, MAX_INPUT,
};
use crate::error::VfbError;
use vstd::slice::slice_to_vec;

verus! {

/// An undecompiled payload, kept verbatim.
pub struct RawData(pub Vec<u8>);

/// A decompiled entry payload. Most keys carry plain text or a 16-bit
/// integer; the default-encoding keys carry a glyph index with a name; all
/// other known keys keep their raw bytes.
pub enum VfbEntryType {
    Raw(RawData),
    Encoding((u16, String)),
    Str(String),
    UInt16(u16),
}

/// The mathematical shape of a `VfbEntryType` value.
pub enum EntryVal {
    Raw(Seq<u8>),
    Encoding(u16, Seq<char>),
    Str(Seq<char>),
    UInt16(u16),
}

impl View for VfbEntryType {
    type V = EntryVal;

    open spec fn view(&self) -> EntryVal {
        match self {
            VfbEntryType::Raw(b) => EntryVal::Raw(b.0@),
            VfbEntryType::Encoding(p) => EntryVal::Encoding(p.0, p.1@),
            VfbEntryType::Str(s) => EntryVal::Str(s@),
            VfbEntryType::UInt16(v) => EntryVal::UInt16(*v),
        }
    }
}

/// What dispatching a key over a payload yields: an error, the raw payload
/// kept as it was, or a typed value.
pub enum DecompileOut {
    Fail,
    Keep,
    Typed(EntryVal),
}

// ---------------------------------------------------------------------------
// The three payload shapes that top-level keys decompile into.
// ---------------------------------------------------------------------------

/// An encoding record: a 16-bit glyph index, then the remainder as a
/// Windows-1252 glyph name.
pub open spec fn spec_decompile_encoding(d: Seq<u8>, p: nat) -> Option<EntryVal> {
    match spec_read_u16(d, p) {
        Option::None => None,
        Option::Some((gid, p1)) => Some(
            EntryVal::Encoding(
                gid,
                win1252_of(spec_read_bytes(d, p1, spec_remainder_len(d, p1))->Some_0.0),
            ),
        ),
    }
}

/// A text payload: the remainder as Windows-1252 text.
pub open spec fn spec_decompile_string(d: Seq<u8>, p: nat) -> EntryVal {
    EntryVal::Str(win1252_of(spec_read_bytes(d, p, spec_remainder_len(d, p))->Some_0.0))
}

/// A 16-bit payload: one little-endian u16; trailing bytes are ignored.
pub open spec fn spec_decompile_uint16(d: Seq<u8>, p: nat) -> Option<EntryVal> {
    match spec_read_u16(d, p) {
        Option::None => None,
        Option::Some((v, _)) => Some(EntryVal::UInt16(v)),
    }
}

// ---------------------------------------------------------------------------
// Which human-readable keys decompile into which shape.
// ---------------------------------------------------------------------------

pub open spec fn is_encoding_key(name: Seq<char>) -> bool {
    ||| name == "Encoding Default"@
    ||| name == "Encoding"@
}

pub open spec fn is_uint16_key(name: Seq<char>) -> bool {
    ||| name == "1502"@
    ||| name == "Master Count"@
    ||| name == "is_fixed_pitch"@
    ||| name == "underline_thickness"@
    ||| name == "ms_charset"@
    ||| name == "year"@
    ||| name == "version_major"@
    ||| name == "version_minor"@
    ||| name == "upm"@
    ||| name == "fond_id"@
    ||| name == "blue_values_num"@
    ||| name == "other_blues_num"@
    ||| name == "family_blues_num"@
    ||| name == "family_other_blues_num"@
    ||| name == "stem_snap_h_num"@
    ||| name == "stem_snap_v_num"@
    ||| name == "font_style"@
    ||| name == "pcl_id"@
    ||| name == "vp_id"@
    ||| name == "ms_id"@
    ||| name == "hhea_line_gap"@
    ||| name == "stemsnaplimit"@
    ||| name == "zoneppm"@
    ||| name == "codeppm"@
    ||| name == "1604"@
    ||| name == "2032"@
    ||| name == "Export PCLT Table"@
    ||| name == "mark"@
    ||| name == "Axis Count"@
}

pub open spec fn is_string_key(name: Seq<char>) -> bool {
    ||| name == "518"@
    ||| name == "257"@
    ||| name == "font_name"@
    ||| name == "version"@
    ||| name == "notice"@
    ||| name == "full_name"@
    ||| name == "family_name"@
    ||| name == "pref_family_name"@
    ||| name == "menu_name"@
    ||| name == "apple_name"@
    ||| name == "weight"@
    ||| name == "width"@
    ||| name == "License"@
    ||| name == "License URL"@
    ||| name == "copyright"@
    ||| name == "trademark"@
    ||| name == "designer"@
    ||| name == "designer_url"@
    ||| name == "vendor_url"@
    ||| name == "source"@
    ||| name == "tt_version"@
    ||| name == "tt_u_id"@
    ||| name == "style_name"@
    ||| name == "pref_style_name"@
    ||| name == "mac_compatible"@
    ||| name == "vendor"@
    ||| name == "pcl_chars_set"@
    ||| name == "note"@
    ||| name == "customdata"@
    ||| name == "OpenType Class"@
    ||| name == "Axis Name"@
    ||| name == "Master Name"@
    ||| name == "default_character"@
    ||| name == "2034"@
    ||| name == "glyph.customdata"@
    ||| name == "glyph.note"@
}

/// The dispatcher's contract, as a function of the key name and the
/// payload bytes. An empty payload and an unlisted key both keep the raw
/// payload.
pub open spec fn spec_decompile(name: Seq<char>, bytes: Seq<u8>) -> DecompileOut {
    if bytes.len() == 0 {
        DecompileOut::Keep
    } else if is_encoding_key(name) {
        match spec_decompile_encoding(bytes, 0) {
            Option::None => DecompileOut::Fail,
            Option::Some(ev) => DecompileOut::Typed(ev),
        }
    } else if is_uint16_key(name) {
        match spec_decompile_uint16(bytes, 0) {
            Option::None => DecompileOut::Fail,
            Option::Some(ev) => DecompileOut::Typed(ev),
        }
    } else if is_string_key(name) {
        DecompileOut::Typed(spec_decompile_string(bytes, 0))
    } else {
        DecompileOut::Keep
    }
}


/// The end-of-file marker's name is not a typed key: dispatching it keeps
/// the payload raw, so reading the marker entry cannot fail on its payload.
pub proof fn lemma_eof_key_is_plain()
    ensures
        !is_encoding_key("EOF"@),
        !is_uint16_key("EOF"@),
        !is_string_key("EOF"@),
{
    reveal_strlit("EOF");
    assert("EOF"@.len() == 3);
    reveal_strlit("Encoding Default");
    assert("Encoding Default"@.len() == 16);
    reveal_strlit("Encoding");
    assert("Encoding"@.len() == 8);
    reveal_strlit("1502");
    assert("1502"@.len() == 4);
    reveal_strlit("Master Count");
    assert("Master Count"@.len() == 12);
    reveal_strlit("is_fixed_pitch");
    assert("is_fixed_pitch"@.len() == 14);
    reveal_strlit("underline_thickness");
    assert("underline_thickness"@.len() == 19);
    reveal_strlit("ms_charset");
    assert("ms_charset"@.len() == 10);
    reveal_strlit("year");
    assert("year"@.len() == 4);
    reveal_strlit("version_major");
    assert("version_major"@.len() == 13);
    reveal_strlit("version_minor");
    assert("version_minor"@.len() == 13);
    reveal_strlit("upm");
    assert("upm"@.len() == 3);
    reveal_strlit("fond_id");
    assert("fond_id"@.len() == 7);
    reveal_strlit("blue_values_num");
    assert("blue_values_num"@.len() == 15);
    reveal_strlit("other_blues_num");
    assert("other_blues_num"@.len() == 15);
    reveal_strlit("family_blues_num");
    assert("family_blues_num"@.len() == 16);
    reveal_strlit("family_other_blues_num");
    assert("family_other_blues_num"@.len() == 22);
    reveal_strlit("stem_snap_h_num");
    assert("stem_snap_h_num"@.len() == 15);
    reveal_strlit("stem_snap_v_num");
    assert("stem_snap_v_num"@.len() == 15);
    reveal_strlit("font_style");
    assert("font_style"@.len() == 10);
    reveal_strlit("pcl_id");
    assert("pcl_id"@.len() == 6);
    reveal_strlit("vp_id");
    assert("vp_id"@.len() == 5);
    reveal_strlit("ms_id");
    assert("ms_id"@.len() == 5);
    reveal_strlit("hhea_line_gap");
    assert("hhea_line_gap"@.len() == 13);
    reveal_strlit("stemsnaplimit");
    assert("stemsnaplimit"@.len() == 13);
    reveal_strlit("zoneppm");
    assert("zoneppm"@.len() == 7);
    reveal_strlit("codeppm");
    assert("codeppm"@.len() == 7);
    reveal_strlit("1604");
    assert("1604"@.len() == 4);
    reveal_strlit("2032");
    assert("2032"@.len() == 4);
    reveal_strlit("Export PCLT Table");
    assert("Export PCLT Table"@.len() == 17);
    reveal_strlit("mark");
    assert("mark"@.len() == 4);
    reveal_strlit("Axis Count");
    assert("Axis Count"@.len() == 10);
    reveal_strlit("518");
    assert("518"@.len() == 3);
    reveal_strlit("257");
    assert("257"@.len() == 3);
    reveal_strlit("font_name");
    assert("font_name"@.len() == 9);
    reveal_strlit("version");
    assert("version"@.len() == 7);
    reveal_strlit("notice");
    assert("notice"@.len() == 6);
    reveal_strlit("full_name");
    assert("full_name"@.len() == 9);
    reveal_strlit("family_name");
    assert("family_name"@.len() == 11);
    reveal_strlit("pref_family_name");
    assert("pref_family_name"@.len() == 16);
    reveal_strlit("menu_name");
    assert("menu_name"@.len() == 9);
    reveal_strlit("apple_name");
    assert("apple_name"@.len() == 10);
    reveal_strlit("weight");
    assert("weight"@.len() == 6);
    reveal_strlit("width");
    assert("width"@.len() == 5);
    reveal_strlit("License");
    assert("License"@.len() == 7);
    reveal_strlit("License URL");
    assert("License URL"@.len() == 11);
    reveal_strlit("copyright");
    assert("copyright"@.len() == 9);
    reveal_strlit("trademark");
    assert("trademark"@.len() == 9);
    reveal_strlit("designer");
    assert("designer"@.len() == 8);
    reveal_strlit("designer_url");
    assert("designer_url"@.len() == 12);
    reveal_strlit("vendor_url");
    assert("vendor_url"@.len() == 10);
    reveal_strlit("source");
    assert("source"@.len() == 6);
    reveal_strlit("tt_version");
    assert("tt_version"@.len() == 10);
    reveal_strlit("tt_u_id");
    assert("tt_u_id"@.len() == 7);
    reveal_strlit("style_name");
    assert("style_name"@.len() == 10);
    reveal_strlit("pref_style_name");
    assert("pref_style_name"@.len() == 15);
    reveal_strlit("mac_compatible");
    assert("mac_compatible"@.len() == 14);
    reveal_strlit("vendor");
    assert("vendor"@.len() == 6);
    reveal_strlit("pcl_chars_set");
    assert("pcl_chars_set"@.len() == 13);
    reveal_strlit("note");
    assert("note"@.len() == 4);
    reveal_strlit("customdata");
    assert("customdata"@.len() == 10);
    reveal_strlit("OpenType Class");
    assert("OpenType Class"@.len() == 14);
    reveal_strlit("Axis Name");
    assert("Axis Name"@.len() == 9);
    reveal_strlit("Master Name");
    assert("Master Name"@.len() == 11);
    reveal_strlit("default_character");
    assert("default_character"@.len() == 17);
    reveal_strlit("2034");
    assert("2034"@.len() == 4);
    reveal_strlit("glyph.customdata");
    assert("glyph.customdata"@.len() == 16);
    reveal_strlit("glyph.note");
    assert("glyph.note"@.len() == 10);
    assert("EOF"@[0] == 'E');
    assert("upm"@[0] == 'u');
    assert("518"@[0] == '5');
    assert("257"@[0] == '2');
}

// ---------------------------------------------------------------------------
// Executable string comparison and key classification.
// ---------------------------------------------------------------------------

pub(crate) fn str_eq(a: &str, b: &str) -> (r: bool)
    ensures
        r == (a@ == b@),
{
    let x: String = a.to_owned();
    let y: String = b.to_owned();
    x == y
}

fn is_encoding_key_name(name: &str) -> (r: bool)
    ensures
        r == is_encoding_key(name@),
{
    str_eq(name, "Encoding Default") || str_eq(name, "Encoding")
}

fn is_uint16_key_name(name: &str) -> (r: bool)
    ensures
        r == is_uint16_key(name@),
{
    str_eq(name, "1502") || str_eq(name, "Master Count") || str_eq(name, "is_fixed_pitch")
        || str_eq(name, "underline_thickness") || str_eq(name, "ms_charset") || str_eq(name, "year")
        || str_eq(name, "version_major") || str_eq(name, "version_minor") || str_eq(name, "upm")
        || str_eq(name, "fond_id") || str_eq(name, "blue_values_num") || str_eq(
        name,
        "other_blues_num",
    ) || str_eq(name, "family_blues_num") || str_eq(name, "family_other_blues_num") || str_eq(
        name,
        "stem_snap_h_num",
    ) || str_eq(name, "stem_snap_v_num") || str_eq(name, "font_style") || str_eq(name, "pcl_id")
        || str_eq(name, "vp_id") || str_eq(name, "ms_id") || str_eq(name, "hhea_line_gap")
        || str_eq(name, "stemsnaplimit") || str_eq(name, "zoneppm") || str_eq(name, "codeppm")
        || str_eq(name, "1604") || str_eq(name, "2032") || str_eq(name, "Export PCLT Table")
        || str_eq(name, "mark") || str_eq(name, "Axis Count")
}

fn is_string_key_name(name: &str) -> (r: bool)
    ensures
        r == is_string_key(name@),
{
    str_eq(name, "518") || str_eq(name, "257") || str_eq(name, "font_name") || str_eq(
        name,
        "version",
    ) || str_eq(name, "notice") || str_eq(name, "full_name") || str_eq(name, "family_name")
        || str_eq(name, "pref_family_name") || str_eq(name, "menu_name") || str_eq(
        name,
        "apple_name",
    ) || str_eq(name, "weight") || str_eq(name, "width") || str_eq(name, "License") || str_eq(
        name,
        "License URL",
    ) || str_eq(name, "copyright") || str_eq(name, "trademark") || str_eq(name, "designer")
        || str_eq(name, "designer_url") || str_eq(name, "vendor_url") || str_eq(name, "source")
        || str_eq(name, "tt_version") || str_eq(name, "tt_u_id") || str_eq(name, "style_name")
        || str_eq(name, "pref_style_name") || str_eq(name, "mac_compatible") || str_eq(
        name,
        "vendor",
    ) || str_eq(name, "pcl_chars_set") || str_eq(name, "note") || str_eq(name, "customdata")
        || str_eq(name, "OpenType Class") || str_eq(name, "Axis Name") || str_eq(
        name,
        "Master Name",
    ) || str_eq(name, "default_character") || str_eq(name, "2034") || str_eq(
        name,
        "glyph.customdata",
    ) || str_eq(name, "glyph.note")
}

// ---------------------------------------------------------------------------
// The executable decompilers.
// ---------------------------------------------------------------------------

impl VfbReader {
    /// Decompile an encoding record: a glyph index and the remainder as the
    /// glyph name.
    pub fn decompile_encoding(&mut self) -> (r: Result<Option<VfbEntryType>, VfbError>)
        requires
            old(self).wf(),
        ensures
            final(self).wf(),
            final(self).same_stream(old(self)),
            r is Ok <==> spec_decompile_encoding(old(self).bytes(), old(self).posn()) is Some,
            r matches Ok(o) ==> (o matches Some(e) && Some(e@) == spec_decompile_encoding(
                old(self).bytes(),
                old(self).posn(),
            )),
            r is Ok ==> final(self).posn() == old(self).posn() + 2 + spec_remainder_len(
                old(self).bytes(),
                old(self).posn() + 2,
            ),
            r is Err ==> (r matches Err(e) && e is ReadError),
    {
        let gid = match self.read_u16() {
            Ok(v) => v,
            Err(e) => { return Err(e) },
        };
        let name = match self.read_str_remainder() {
            Ok(s) => s,
            Err(e) => { return Err(e) },
        };
        Ok(Some(VfbEntryType::Encoding((gid, name))))
    }

    /// Decompile a text payload: the remainder as Windows-1252 text.
    pub fn decompile_string(&mut self) -> (r: Result<Option<VfbEntryType>, VfbError>)
        requires
            old(self).wf(),
        ensures
            final(self).wf(),
            final(self).same_stream(old(self)),
            r matches Ok(o) && o matches Some(e) && e@ == spec_decompile_string(
                old(self).bytes(),
                old(self).posn(),
            ),
            final(self).posn() == old(self).posn() + spec_remainder_len(
                old(self).bytes(),
                old(self).posn(),
            ),
    {
        let string = match self.read_str_remainder() {
            Ok(s) => s,
            Err(e) => { return Err(e) },
        };
        Ok(Some(VfbEntryType::Str(string)))
    }

    /// Decompile a 16-bit payload: one little-endian u16.
    pub fn decompile_uint16(&mut self) -> (r: Result<Option<VfbEntryType>, VfbError>)
        requires
            old(self).wf(),
        ensures
            final(self).wf(),
            final(self).same_stream(old(self)),
            r is Ok <==> spec_decompile_uint16(old(self).bytes(), old(self).posn()) is Some,
            r matches Ok(o) ==> (o matches Some(e) && Some(e@) == spec_decompile_uint16(
                old(self).bytes(),
                old(self).posn(),
            )),
            r is Ok ==> final(self).posn() == old(self).posn() + 2,
            r is Err ==> (r matches Err(e) && e is ReadError),
    {
        let i = match self.read_u16() {
            Ok(v) => v,
            Err(e) => { return Err(e) },
        };
        Ok(Some(VfbEntryType::UInt16(i)))
    }
}

/// Dispatch the decompilation of one payload to the reader its key calls
/// for. Unknown keys and empty payloads keep the raw bytes.
pub fn decompile(key: &str, bytes: &[u8]) -> (r: Result<Option<VfbEntryType>, VfbError>)
    requires
        bytes@.len() <= MAX_INPUT,
    ensures
        spec_decompile(key@, bytes@) is Keep <==> (r matches Ok(o) && o is None),
        spec_decompile(key@, bytes@) matches DecompileOut::Typed(ev) ==> (r matches Ok(o)
            && o matches Some(e) && e@ == ev),
        r is Ok && r->Ok_0 is Some ==> (spec_decompile(key@, bytes@)
            matches DecompileOut::Typed(ev) && r->Ok_0->Some_0@ == ev),
        spec_decompile(key@, bytes@) is Fail <==> r is Err,
        r matches Err(e) ==> e is ReadError,
{
    if bytes.len() == 0 {
        return Ok(None);
    }
    let mut r = VfbReader::new(slice_to_vec(bytes));
    if is_encoding_key_name(key) {
        r.decompile_encoding()
    } else if is_uint16_key_name(key) {
        r.decompile_uint16()
    } else if is_string_key_name(key) {
        r.decompile_string()
    } else {
        Ok(None)
    }
}

} // verus!
