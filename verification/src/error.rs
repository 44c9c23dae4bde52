use vstd::prelude::*;

verus! {

/// The error taxonomy of the decoder.
///
/// `ReadError` stands for a short read: fewer bytes remained in the cursor
/// than the requested item needs. `BadValue` carries the offending lead byte
/// of a charstring-encoded value (a byte below 32). `Overflow` carries a
/// declared size that cannot be used as a host index. `InvalidGlyphHeader`
/// carries the four observed bytes of a glyph preamble that was not the
/// expected literal. `InvalidPathCommand` carries the offending command
/// nibble. `UnknownEntryKey` is raised only by strict sub-dispatchers such as
/// the TrueType value list. `UninitializedEntry` marks a decompile request on
/// an entry without data.
#[derive(Debug)]
pub enum VfbError {
    ReadError,
    BadValue(u8),
    Overflow(u32),
    InvalidGlyphHeader(Vec<u8>),
    InvalidPathCommand(u8),
    UnknownEntryKey(u16),
    UninitializedEntry,
}

impl VfbError {
    /// A short human-readable label for the error, for diagnostics.
    pub fn label(&self) -> (r: &'static str)
        ensures
            r@ == self.spec_label(),
    {
        match self {
            VfbError::ReadError => "read error: not enough bytes",
            VfbError::BadValue(_) => "bad charstring value byte",
            VfbError::Overflow(_) => "declared size out of range",
            VfbError::InvalidGlyphHeader(_) => "invalid glyph header",
            VfbError::InvalidPathCommand(_) => "invalid path command",
            VfbError::UnknownEntryKey(_) => "unknown entry key",
            VfbError::UninitializedEntry => "entry has no data",
        }
    }

    pub open spec fn spec_label(&self) -> Seq<char> {
        match self {
            VfbError::ReadError => "read error: not enough bytes"@,
            VfbError::BadValue(_) => "bad charstring value byte"@,
            VfbError::Overflow(_) => "declared size out of range"@,
            VfbError::InvalidGlyphHeader(_) => "invalid glyph header"@,
            VfbError::InvalidPathCommand(_) => "invalid path command"@,
            VfbError::UnknownEntryKey(_) => "unknown entry key"@,
            VfbError::UninitializedEntry => "entry has no data"@,
        }
    }
}


/// A located decode failure, as the outermost decode call reports it: the
/// error itself, the human name of what was being read when it was
/// observed (`header` for the header record, the entry's catalogue name
/// where one is known, `entry stream` otherwise), and the byte offset at
/// which it was observed.
#[derive(Debug)]
pub struct VfbFailure {
    pub error: VfbError,
    pub context: String,
    pub offset: usize,
}

} // verus!
