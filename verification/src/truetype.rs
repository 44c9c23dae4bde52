use vstd::prelude::*;

use crate::buffer::{
    spec_read_bytes, spec_read_u8, spec_read_value, spec_value_pair, EntryReader,
};
use crate::error::VfbError;

verus! {

/// The TrueType generation options packed into the high half of the
/// head-flags word. Only the three defined bits are kept: bit 0 use
/// custom TrueType values, bit 1 create a VDMX table, bit 2 add null,
/// CR and space glyphs.
pub struct TrueTypeOptions {
    pub bits: u16,
}

impl TrueTypeOptions {
    /// Keep only the defined option bits.
    pub fn from_bits_truncate(value: u16) -> (r: TrueTypeOptions)
        ensures
            r.bits == value & 0x7,
    {
        TrueTypeOptions { bits: value & 0x7 }
    }
}

/// One record of the TrueType value list, tagged by its one-byte sub-key.
pub enum TrueTypeValue {
    MaxZones(i32),
    MaxTwilightPoints(i32),
    MaxStorage(i32),
    MaxFunctionDefs(i32),
    MaxInstructionDefs(i32),
    MaxStackElements(i32),
    HeadFlags((TrueTypeOptions, u16)),
    HeadUnitsPerEm(i32),
    HeadMacStyle(i32),
    HeadLowestRecPpem(i32),
    HeadFontDirectionHint(i32),
    Os2UsWeightClass(i32),
    Os2UsWidthClass(i32),
    Os2FsType(i32),
    Os2YSubscriptXSize(i32),
    Os2YSubscriptYSize(i32),
    Os2YSubscriptXOffset(i32),
    Os2YSubscriptYOffset(i32),
    Os2YSuperscriptXSize(i32),
    Os2YSuperscriptYSize(i32),
    Os2YSuperscriptXOffset(i32),
    Os2YSuperscriptYOffset(i32),
    Os2YStrikeoutSize(i32),
    Os2YStrikeoutPosition(i32),
    Os2SFamilyClass(i32),
    Os2Panose(Vec<i8>),
    Os2TypoAscender(i32),
    Os2TypoDescender(i32),
    Os2TypoLineGap(i32),
    Os2FsSelection(i32),
    Os2UsWinAscent(i32),
    Os2UsWinDescent(i32),
    HdmxPPMs1(Vec<u8>),
    Os2UlCodePageRange((i32, i32)),
    HeadCreation(i32),
    HeadCreation2(i32),
    HdmxPPMs2(Vec<u8>),
    AverageWidth(i32),
}

/// The mathematical shape of a `TrueTypeValue`.
pub enum TrueTypeVal {
    MaxZones(i32),
    MaxTwilightPoints(i32),
    MaxStorage(i32),
    MaxFunctionDefs(i32),
    MaxInstructionDefs(i32),
    MaxStackElements(i32),
    HeadFlags(u16, u16),
    HeadUnitsPerEm(i32),
    HeadMacStyle(i32),
    HeadLowestRecPpem(i32),
    HeadFontDirectionHint(i32),
    Os2UsWeightClass(i32),
    Os2UsWidthClass(i32),
    Os2FsType(i32),
    Os2YSubscriptXSize(i32),
    Os2YSubscriptYSize(i32),
    Os2YSubscriptXOffset(i32),
    Os2YSubscriptYOffset(i32),
    Os2YSuperscriptXSize(i32),
    Os2YSuperscriptYSize(i32),
    Os2YSuperscriptXOffset(i32),
    Os2YSuperscriptYOffset(i32),
    Os2YStrikeoutSize(i32),
    Os2YStrikeoutPosition(i32),
    Os2SFamilyClass(i32),
    Os2Panose(Seq<i8>),
    Os2TypoAscender(i32),
    Os2TypoDescender(i32),
    Os2TypoLineGap(i32),
    Os2FsSelection(i32),
    Os2UsWinAscent(i32),
    Os2UsWinDescent(i32),
    HdmxPPMs1(Seq<u8>),
    Os2UlCodePageRange(i32, i32),
    HeadCreation(i32),
    HeadCreation2(i32),
    HdmxPPMs2(Seq<u8>),
    AverageWidth(i32),
}

impl View for TrueTypeValue {
    type V = TrueTypeVal;

    open spec fn view(&self) -> TrueTypeVal {
        match self {
            TrueTypeValue::MaxZones(v) => TrueTypeVal::MaxZones(*v),
            TrueTypeValue::MaxTwilightPoints(v) => TrueTypeVal::MaxTwilightPoints(*v),
            TrueTypeValue::MaxStorage(v) => TrueTypeVal::MaxStorage(*v),
            TrueTypeValue::MaxFunctionDefs(v) => TrueTypeVal::MaxFunctionDefs(*v),
            TrueTypeValue::MaxInstructionDefs(v) => TrueTypeVal::MaxInstructionDefs(*v),
            TrueTypeValue::MaxStackElements(v) => TrueTypeVal::MaxStackElements(*v),
            TrueTypeValue::HeadFlags(p) => TrueTypeVal::HeadFlags(p.0.bits, p.1),
            TrueTypeValue::HeadUnitsPerEm(v) => TrueTypeVal::HeadUnitsPerEm(*v),
            TrueTypeValue::HeadMacStyle(v) => TrueTypeVal::HeadMacStyle(*v),
            TrueTypeValue::HeadLowestRecPpem(v) => TrueTypeVal::HeadLowestRecPpem(*v),
            TrueTypeValue::HeadFontDirectionHint(v) => TrueTypeVal::HeadFontDirectionHint(*v),
            TrueTypeValue::Os2UsWeightClass(v) => TrueTypeVal::Os2UsWeightClass(*v),
            TrueTypeValue::Os2UsWidthClass(v) => TrueTypeVal::Os2UsWidthClass(*v),
            TrueTypeValue::Os2FsType(v) => TrueTypeVal::Os2FsType(*v),
            TrueTypeValue::Os2YSubscriptXSize(v) => TrueTypeVal::Os2YSubscriptXSize(*v),
            TrueTypeValue::Os2YSubscriptYSize(v) => TrueTypeVal::Os2YSubscriptYSize(*v),
            TrueTypeValue::Os2YSubscriptXOffset(v) => TrueTypeVal::Os2YSubscriptXOffset(*v),
            TrueTypeValue::Os2YSubscriptYOffset(v) => TrueTypeVal::Os2YSubscriptYOffset(*v),
            TrueTypeValue::Os2YSuperscriptXSize(v) => TrueTypeVal::Os2YSuperscriptXSize(*v),
            TrueTypeValue::Os2YSuperscriptYSize(v) => TrueTypeVal::Os2YSuperscriptYSize(*v),
            TrueTypeValue::Os2YSuperscriptXOffset(v) => TrueTypeVal::Os2YSuperscriptXOffset(*v),
            TrueTypeValue::Os2YSuperscriptYOffset(v) => TrueTypeVal::Os2YSuperscriptYOffset(*v),
            TrueTypeValue::Os2YStrikeoutSize(v) => TrueTypeVal::Os2YStrikeoutSize(*v),
            TrueTypeValue::Os2YStrikeoutPosition(v) => TrueTypeVal::Os2YStrikeoutPosition(*v),
            TrueTypeValue::Os2SFamilyClass(v) => TrueTypeVal::Os2SFamilyClass(*v),
            TrueTypeValue::Os2Panose(v) => TrueTypeVal::Os2Panose(v@),
            TrueTypeValue::Os2TypoAscender(v) => TrueTypeVal::Os2TypoAscender(*v),
            TrueTypeValue::Os2TypoDescender(v) => TrueTypeVal::Os2TypoDescender(*v),
            TrueTypeValue::Os2TypoLineGap(v) => TrueTypeVal::Os2TypoLineGap(*v),
            TrueTypeValue::Os2FsSelection(v) => TrueTypeVal::Os2FsSelection(*v),
            TrueTypeValue::Os2UsWinAscent(v) => TrueTypeVal::Os2UsWinAscent(*v),
            TrueTypeValue::Os2UsWinDescent(v) => TrueTypeVal::Os2UsWinDescent(*v),
            TrueTypeValue::HdmxPPMs1(v) => TrueTypeVal::HdmxPPMs1(v@),
            TrueTypeValue::Os2UlCodePageRange(p) => TrueTypeVal::Os2UlCodePageRange(p.0, p.1),
            TrueTypeValue::HeadCreation(v) => TrueTypeVal::HeadCreation(*v),
            TrueTypeValue::HeadCreation2(v) => TrueTypeVal::HeadCreation2(*v),
            TrueTypeValue::HdmxPPMs2(v) => TrueTypeVal::HdmxPPMs2(v@),
            TrueTypeValue::AverageWidth(v) => TrueTypeVal::AverageWidth(*v),
        }
    }
}

/// The head-flags word: one encoded value whose low 16 bits are the head
/// table flags and whose high 16 bits are the TrueType options, of which
/// only the defined bits are kept.
pub open spec fn spec_head_flags(d: Seq<u8>, p: nat) -> Option<((u16, u16), nat)> {
    match spec_read_value(d, p) {
        Option::None => None,
        Option::Some((v, q)) => {
            let u = v as u32;
            let flags = (u % 0x10000) as u16;
            let options = ((u / 0x10000) % 0x10000) as u16;
            Some((((options & 0x7) as u16, flags), q))
        },
    }
}

/// A PANOSE tuple: exactly ten signed bytes.
pub open spec fn spec_panose(d: Seq<u8>, p: nat) -> Option<(Seq<i8>, nat)> {
    match spec_read_bytes(d, p, 10) {
        Option::None => None,
        Option::Some((b, q)) => Some((b.map_values(|x: u8| x as i8), q)),
    }
}

/// A byte list whose length stands before it as one encoded value. A
/// negative length cannot be satisfied and fails like a short read.
pub open spec fn spec_bytes_with_count(d: Seq<u8>, p: nat) -> Option<(Seq<u8>, nat)> {
    match spec_read_value(d, p) {
        Option::None => None,
        Option::Some((n, p1)) => {
            if n < 0 {
                None
            } else {
                spec_read_bytes(d, p1, n as nat)
            }
        },
    }
}


/// The unicode-ranges payload (the axis-mapping counts share its shape):
/// four little-endian 32-bit words.
pub open spec fn spec_u32_quad(d: Seq<u8>, p: nat) -> Option<((u32, u32, u32, u32), nat)> {
    match crate::buffer::spec_read_u32(d, p) {
        Option::None => None,
        Option::Some((a, p1)) => match crate::buffer::spec_read_u32(d, p1) {
            Option::None => None,
            Option::Some((b, p2)) => match crate::buffer::spec_read_u32(d, p2) {
                Option::None => None,
                Option::Some((c, p3)) => match crate::buffer::spec_read_u32(d, p3) {
                    Option::None => None,
                    Option::Some((e, p4)) => Some(((a, b, c, e), p4)),
                },
            },
        },
    }
}

/// A binary table payload: the four tag bytes in their on-disk order,
/// then the remainder verbatim.
pub open spec fn spec_binary_table(d: Seq<u8>, p: nat) -> Option<((Seq<u8>, Seq<u8>), nat)> {
    match spec_read_bytes(d, p, 4) {
        Option::None => None,
        Option::Some((tag, p1)) => match spec_read_bytes(
            d,
            p1,
            crate::buffer::spec_remainder_len(d, p1),
        ) {
            Option::None => None,
            Option::Some((rest, p2)) => Some(((tag, rest), p2)),
        },
    }
}

/// Whether a sub-key belongs to the TrueType value list. Unlike the
/// tolerant top level, an unknown sub-key here is an error.
pub open spec fn spec_is_tt_key(k: u16) -> bool {
    k == 0x33 || k == 0x34 || k == 0x35 || k == 0x36 || k == 0x37 || k == 0x38 || k == 0x39 || k == 0x3a || k == 0x3b || k == 0x3c || k == 0x3d || k == 0x3e || k == 0x3f || k == 0x40 || k == 0x41 || k == 0x42 || k == 0x43 || k == 0x44 || k == 0x45 || k == 0x46 || k == 0x47 || k == 0x48 || k == 0x49 || k == 0x4a || k == 0x4b || k == 0x4c || k == 0x4d || k == 0x4e || k == 0x4f || k == 0x50 || k == 0x51 || k == 0x52 || k == 0x53 || k == 0x54 || k == 0x56 || k == 0x57 || k == 0x58 || k == 0x5c
}

/// One record of the list, dispatched on its sub-key.
pub open spec fn spec_tt_sub(d: Seq<u8>, p: nat, k: u16) -> Option<(TrueTypeVal, nat)> {
    if k == 0x33 {
        match spec_read_value(d, p) {
            Option::None => None,
            Option::Some((v, q)) => Some((TrueTypeVal::MaxZones(v), q)),
        }
    } else if k == 0x34 {
        match spec_read_value(d, p) {
            Option::None => None,
            Option::Some((v, q)) => Some((TrueTypeVal::MaxTwilightPoints(v), q)),
        }
    } else if k == 0x35 {
        match spec_read_value(d, p) {
            Option::None => None,
            Option::Some((v, q)) => Some((TrueTypeVal::MaxStorage(v), q)),
        }
    } else if k == 0x36 {
        match spec_read_value(d, p) {
            Option::None => None,
            Option::Some((v, q)) => Some((TrueTypeVal::MaxFunctionDefs(v), q)),
        }
    } else if k == 0x37 {
        match spec_read_value(d, p) {
            Option::None => None,
            Option::Some((v, q)) => Some((TrueTypeVal::MaxInstructionDefs(v), q)),
        }
    } else if k == 0x38 {
        match spec_read_value(d, p) {
            Option::None => None,
            Option::Some((v, q)) => Some((TrueTypeVal::MaxStackElements(v), q)),
        }
    } else if k == 0x39 {
        match spec_head_flags(d, p) {
            Option::None => None,
            Option::Some((of, q)) => Some((TrueTypeVal::HeadFlags(of.0, of.1), q)),
        }
    } else if k == 0x3a {
        match spec_read_value(d, p) {
            Option::None => None,
            Option::Some((v, q)) => Some((TrueTypeVal::HeadUnitsPerEm(v), q)),
        }
    } else if k == 0x3b {
        match spec_read_value(d, p) {
            Option::None => None,
            Option::Some((v, q)) => Some((TrueTypeVal::HeadMacStyle(v), q)),
        }
    } else if k == 0x3c {
        match spec_read_value(d, p) {
            Option::None => None,
            Option::Some((v, q)) => Some((TrueTypeVal::HeadLowestRecPpem(v), q)),
        }
    } else if k == 0x3d {
        match spec_read_value(d, p) {
            Option::None => None,
            Option::Some((v, q)) => Some((TrueTypeVal::HeadFontDirectionHint(v), q)),
        }
    } else if k == 0x3e {
        match spec_read_value(d, p) {
            Option::None => None,
            Option::Some((v, q)) => Some((TrueTypeVal::Os2UsWeightClass(v), q)),
        }
    } else if k == 0x3f {
        match spec_read_value(d, p) {
            Option::None => None,
            Option::Some((v, q)) => Some((TrueTypeVal::Os2UsWidthClass(v), q)),
        }
    } else if k == 0x40 {
        match spec_read_value(d, p) {
            Option::None => None,
            Option::Some((v, q)) => Some((TrueTypeVal::Os2FsType(v), q)),
        }
    } else if k == 0x41 {
        match spec_read_value(d, p) {
            Option::None => None,
            Option::Some((v, q)) => Some((TrueTypeVal::Os2YSubscriptXSize(v), q)),
        }
    } else if k == 0x42 {
        match spec_read_value(d, p) {
            Option::None => None,
            Option::Some((v, q)) => Some((TrueTypeVal::Os2YSubscriptYSize(v), q)),
        }
    } else if k == 0x43 {
        match spec_read_value(d, p) {
            Option::None => None,
            Option::Some((v, q)) => Some((TrueTypeVal::Os2YSubscriptXOffset(v), q)),
        }
    } else if k == 0x44 {
        match spec_read_value(d, p) {
            Option::None => None,
            Option::Some((v, q)) => Some((TrueTypeVal::Os2YSubscriptYOffset(v), q)),
        }
    } else if k == 0x45 {
        match spec_read_value(d, p) {
            Option::None => None,
            Option::Some((v, q)) => Some((TrueTypeVal::Os2YSuperscriptXSize(v), q)),
        }
    } else if k == 0x46 {
        match spec_read_value(d, p) {
            Option::None => None,
            Option::Some((v, q)) => Some((TrueTypeVal::Os2YSuperscriptYSize(v), q)),
        }
    } else if k == 0x47 {
        match spec_read_value(d, p) {
            Option::None => None,
            Option::Some((v, q)) => Some((TrueTypeVal::Os2YSuperscriptXOffset(v), q)),
        }
    } else if k == 0x48 {
        match spec_read_value(d, p) {
            Option::None => None,
            Option::Some((v, q)) => Some((TrueTypeVal::Os2YSuperscriptYOffset(v), q)),
        }
    } else if k == 0x49 {
        match spec_read_value(d, p) {
            Option::None => None,
            Option::Some((v, q)) => Some((TrueTypeVal::Os2YStrikeoutSize(v), q)),
        }
    } else if k == 0x4a {
        match spec_read_value(d, p) {
            Option::None => None,
            Option::Some((v, q)) => Some((TrueTypeVal::Os2YStrikeoutPosition(v), q)),
        }
    } else if k == 0x4b {
        match spec_read_value(d, p) {
            Option::None => None,
            Option::Some((v, q)) => Some((TrueTypeVal::Os2SFamilyClass(v), q)),
        }
    } else if k == 0x4c {
        match spec_panose(d, p) {
            Option::None => None,
            Option::Some((v, q)) => Some((TrueTypeVal::Os2Panose(v), q)),
        }
    } else if k == 0x4d {
        match spec_read_value(d, p) {
            Option::None => None,
            Option::Some((v, q)) => Some((TrueTypeVal::Os2TypoAscender(v), q)),
        }
    } else if k == 0x4e {
        match spec_read_value(d, p) {
            Option::None => None,
            Option::Some((v, q)) => Some((TrueTypeVal::Os2TypoDescender(v), q)),
        }
    } else if k == 0x4f {
        match spec_read_value(d, p) {
            Option::None => None,
            Option::Some((v, q)) => Some((TrueTypeVal::Os2TypoLineGap(v), q)),
        }
    } else if k == 0x50 {
        match spec_read_value(d, p) {
            Option::None => None,
            Option::Some((v, q)) => Some((TrueTypeVal::Os2FsSelection(v), q)),
        }
    } else if k == 0x51 {
        match spec_read_value(d, p) {
            Option::None => None,
            Option::Some((v, q)) => Some((TrueTypeVal::Os2UsWinAscent(v), q)),
        }
    } else if k == 0x52 {
        match spec_read_value(d, p) {
            Option::None => None,
            Option::Some((v, q)) => Some((TrueTypeVal::Os2UsWinDescent(v), q)),
        }
    } else if k == 0x53 {
        match spec_bytes_with_count(d, p) {
            Option::None => None,
            Option::Some((v, q)) => Some((TrueTypeVal::HdmxPPMs1(v), q)),
        }
    } else if k == 0x54 {
        match spec_value_pair(d, p) {
            Option::None => None,
            Option::Some((ab, q)) => Some((TrueTypeVal::Os2UlCodePageRange(ab.0, ab.1), q)),
        }
    } else if k == 0x56 {
        match spec_read_value(d, p) {
            Option::None => None,
            Option::Some((v, q)) => Some((TrueTypeVal::HeadCreation(v), q)),
        }
    } else if k == 0x57 {
        match spec_read_value(d, p) {
            Option::None => None,
            Option::Some((v, q)) => Some((TrueTypeVal::HeadCreation2(v), q)),
        }
    } else if k == 0x58 {
        match spec_bytes_with_count(d, p) {
            Option::None => None,
            Option::Some((v, q)) => Some((TrueTypeVal::HdmxPPMs2(v), q)),
        }
    } else if k == 0x5c {
        match spec_read_value(d, p) {
            Option::None => None,
            Option::Some((v, q)) => Some((TrueTypeVal::AverageWidth(v), q)),
        }
    } else {
        None
    }
}

pub proof fn lemma_tt_sub_bounds(d: Seq<u8>, p: nat, k: u16)
    requires
        p <= d.len(),
    ensures
        spec_tt_sub(d, p, k) matches Some(r) ==> p <= r.1 <= d.len(),
{
}

/// The record stream of the TrueType value list, ended by sub-key 0x32.
/// An unknown sub-key is an error.
pub open spec fn spec_tt_run(d: Seq<u8>, p: nat, acc: Seq<TrueTypeVal>) -> Option<
    (Seq<TrueTypeVal>, nat),
>
    decreases d.len() - p,
    via spec_tt_run_dec
{
    match spec_read_u8(d, p) {
        Option::None => None,
        Option::Some((k, p1)) => {
            if k == 0x32 {
                Some((acc, p1))
            } else if !spec_is_tt_key(k as u16) {
                None
            } else {
                match spec_tt_sub(d, p1, k as u16) {
                    Option::None => None,
                    Option::Some((v, q)) => spec_tt_run(d, q, acc.push(v)),
                }
            }
        },
    }
}

#[via_fn]
proof fn spec_tt_run_dec(d: Seq<u8>, p: nat, acc: Seq<TrueTypeVal>) {
    if p < d.len() {
        let kp = spec_read_u8(d, p)->Some_0;
        lemma_tt_sub_bounds(d, kp.1, kp.0 as u16);
    }
}


/// The first unknown sub-key met in the list, where every earlier record
/// parses; `None` where the list parses to its terminator or fails for
/// another reason (a short read or a bad encoded value).
pub open spec fn spec_tt_run_bad(d: Seq<u8>, p: nat) -> Option<u16>
    decreases d.len() - p,
    via spec_tt_run_bad_dec
{
    match spec_read_u8(d, p) {
        Option::None => None,
        Option::Some((k, p1)) => {
            if k == 0x32 {
                None
            } else if !spec_is_tt_key(k as u16) {
                Some(k as u16)
            } else {
                match spec_tt_sub(d, p1, k as u16) {
                    Option::None => None,
                    Option::Some((v, q)) => spec_tt_run_bad(d, q),
                }
            }
        },
    }
}

#[via_fn]
proof fn spec_tt_run_bad_dec(d: Seq<u8>, p: nat) {
    if p < d.len() {
        let kp = spec_read_u8(d, p)->Some_0;
        lemma_tt_sub_bounds(d, kp.1, kp.0 as u16);
    }
}

/// The list of decoded records as values.
pub open spec fn spec_tt_view(es: Seq<TrueTypeValue>) -> Seq<TrueTypeVal> {
    es.map_values(|e: TrueTypeValue| e@)
}

impl TrueTypeValue {
    /// The variant name of a sub-key in the list's catalogue.
    pub open spec fn spec_key_to_variant(key: u16) -> Option<Seq<char>> {
        if key == 0x33 {
        Some("MaxZones"@)
    } else if key == 0x34 {
        Some("MaxTwilightPoints"@)
    } else if key == 0x35 {
        Some("MaxStorage"@)
    } else if key == 0x36 {
        Some("MaxFunctionDefs"@)
    } else if key == 0x37 {
        Some("MaxInstructionDefs"@)
    } else if key == 0x38 {
        Some("MaxStackElements"@)
    } else if key == 0x39 {
        Some("HeadFlags"@)
    } else if key == 0x3a {
        Some("HeadUnitsPerEm"@)
    } else if key == 0x3b {
        Some("HeadMacStyle"@)
    } else if key == 0x3c {
        Some("HeadLowestRecPpem"@)
    } else if key == 0x3d {
        Some("HeadFontDirectionHint"@)
    } else if key == 0x3e {
        Some("Os2UsWeightClass"@)
    } else if key == 0x3f {
        Some("Os2UsWidthClass"@)
    } else if key == 0x40 {
        Some("Os2FsType"@)
    } else if key == 0x41 {
        Some("Os2YSubscriptXSize"@)
    } else if key == 0x42 {
        Some("Os2YSubscriptYSize"@)
    } else if key == 0x43 {
        Some("Os2YSubscriptXOffset"@)
    } else if key == 0x44 {
        Some("Os2YSubscriptYOffset"@)
    } else if key == 0x45 {
        Some("Os2YSuperscriptXSize"@)
    } else if key == 0x46 {
        Some("Os2YSuperscriptYSize"@)
    } else if key == 0x47 {
        Some("Os2YSuperscriptXOffset"@)
    } else if key == 0x48 {
        Some("Os2YSuperscriptYOffset"@)
    } else if key == 0x49 {
        Some("Os2YStrikeoutSize"@)
    } else if key == 0x4a {
        Some("Os2YStrikeoutPosition"@)
    } else if key == 0x4b {
        Some("Os2SFamilyClass"@)
    } else if key == 0x4c {
        Some("Os2Panose"@)
    } else if key == 0x4d {
        Some("Os2TypoAscender"@)
    } else if key == 0x4e {
        Some("Os2TypoDescender"@)
    } else if key == 0x4f {
        Some("Os2TypoLineGap"@)
    } else if key == 0x50 {
        Some("Os2FsSelection"@)
    } else if key == 0x51 {
        Some("Os2UsWinAscent"@)
    } else if key == 0x52 {
        Some("Os2UsWinDescent"@)
    } else if key == 0x53 {
        Some("HdmxPPMs1"@)
    } else if key == 0x54 {
        Some("Os2UlCodePageRange"@)
    } else if key == 0x56 {
        Some("HeadCreation"@)
    } else if key == 0x57 {
        Some("HeadCreation2"@)
    } else if key == 0x58 {
        Some("HdmxPPMs2"@)
    } else if key == 0x5c {
        Some("AverageWidth"@)
    } else {
        None
    }
    }

    /// The sub-key of a variant name.
    pub open spec fn spec_variant_to_key(name: Seq<char>) -> Option<u16> {
        if name == "MaxZones"@ {
        Some(0x33 as u16)
    } else if name == "MaxTwilightPoints"@ {
        Some(0x34 as u16)
    } else if name == "MaxStorage"@ {
        Some(0x35 as u16)
    } else if name == "MaxFunctionDefs"@ {
        Some(0x36 as u16)
    } else if name == "MaxInstructionDefs"@ {
        Some(0x37 as u16)
    } else if name == "MaxStackElements"@ {
        Some(0x38 as u16)
    } else if name == "HeadFlags"@ {
        Some(0x39 as u16)
    } else if name == "HeadUnitsPerEm"@ {
        Some(0x3a as u16)
    } else if name == "HeadMacStyle"@ {
        Some(0x3b as u16)
    } else if name == "HeadLowestRecPpem"@ {
        Some(0x3c as u16)
    } else if name == "HeadFontDirectionHint"@ {
        Some(0x3d as u16)
    } else if name == "Os2UsWeightClass"@ {
        Some(0x3e as u16)
    } else if name == "Os2UsWidthClass"@ {
        Some(0x3f as u16)
    } else if name == "Os2FsType"@ {
        Some(0x40 as u16)
    } else if name == "Os2YSubscriptXSize"@ {
        Some(0x41 as u16)
    } else if name == "Os2YSubscriptYSize"@ {
        Some(0x42 as u16)
    } else if name == "Os2YSubscriptXOffset"@ {
        Some(0x43 as u16)
    } else if name == "Os2YSubscriptYOffset"@ {
        Some(0x44 as u16)
    } else if name == "Os2YSuperscriptXSize"@ {
        Some(0x45 as u16)
    } else if name == "Os2YSuperscriptYSize"@ {
        Some(0x46 as u16)
    } else if name == "Os2YSuperscriptXOffset"@ {
        Some(0x47 as u16)
    } else if name == "Os2YSuperscriptYOffset"@ {
        Some(0x48 as u16)
    } else if name == "Os2YStrikeoutSize"@ {
        Some(0x49 as u16)
    } else if name == "Os2YStrikeoutPosition"@ {
        Some(0x4a as u16)
    } else if name == "Os2SFamilyClass"@ {
        Some(0x4b as u16)
    } else if name == "Os2Panose"@ {
        Some(0x4c as u16)
    } else if name == "Os2TypoAscender"@ {
        Some(0x4d as u16)
    } else if name == "Os2TypoDescender"@ {
        Some(0x4e as u16)
    } else if name == "Os2TypoLineGap"@ {
        Some(0x4f as u16)
    } else if name == "Os2FsSelection"@ {
        Some(0x50 as u16)
    } else if name == "Os2UsWinAscent"@ {
        Some(0x51 as u16)
    } else if name == "Os2UsWinDescent"@ {
        Some(0x52 as u16)
    } else if name == "HdmxPPMs1"@ {
        Some(0x53 as u16)
    } else if name == "Os2UlCodePageRange"@ {
        Some(0x54 as u16)
    } else if name == "HeadCreation"@ {
        Some(0x56 as u16)
    } else if name == "HeadCreation2"@ {
        Some(0x57 as u16)
    } else if name == "HdmxPPMs2"@ {
        Some(0x58 as u16)
    } else if name == "AverageWidth"@ {
        Some(0x5c as u16)
    } else {
        None
    }
    }

    /// Get the variant name from a binary sub-key.
    pub fn key_to_variant(key: u16) -> (r: Option<&'static str>)
        ensures
            r is Some <==> Self::spec_key_to_variant(key) is Some,
            r matches Some(s) ==> Self::spec_key_to_variant(key) == Some(s@),
    {
        match key {
            0x33 => Some("MaxZones"),
            0x34 => Some("MaxTwilightPoints"),
            0x35 => Some("MaxStorage"),
            0x36 => Some("MaxFunctionDefs"),
            0x37 => Some("MaxInstructionDefs"),
            0x38 => Some("MaxStackElements"),
            0x39 => Some("HeadFlags"),
            0x3a => Some("HeadUnitsPerEm"),
            0x3b => Some("HeadMacStyle"),
            0x3c => Some("HeadLowestRecPpem"),
            0x3d => Some("HeadFontDirectionHint"),
            0x3e => Some("Os2UsWeightClass"),
            0x3f => Some("Os2UsWidthClass"),
            0x40 => Some("Os2FsType"),
            0x41 => Some("Os2YSubscriptXSize"),
            0x42 => Some("Os2YSubscriptYSize"),
            0x43 => Some("Os2YSubscriptXOffset"),
            0x44 => Some("Os2YSubscriptYOffset"),
            0x45 => Some("Os2YSuperscriptXSize"),
            0x46 => Some("Os2YSuperscriptYSize"),
            0x47 => Some("Os2YSuperscriptXOffset"),
            0x48 => Some("Os2YSuperscriptYOffset"),
            0x49 => Some("Os2YStrikeoutSize"),
            0x4a => Some("Os2YStrikeoutPosition"),
            0x4b => Some("Os2SFamilyClass"),
            0x4c => Some("Os2Panose"),
            0x4d => Some("Os2TypoAscender"),
            0x4e => Some("Os2TypoDescender"),
            0x4f => Some("Os2TypoLineGap"),
            0x50 => Some("Os2FsSelection"),
            0x51 => Some("Os2UsWinAscent"),
            0x52 => Some("Os2UsWinDescent"),
            0x53 => Some("HdmxPPMs1"),
            0x54 => Some("Os2UlCodePageRange"),
            0x56 => Some("HeadCreation"),
            0x57 => Some("HeadCreation2"),
            0x58 => Some("HdmxPPMs2"),
            0x5c => Some("AverageWidth"),
            _ => None,
        }
    }

    /// Get the binary sub-key from a variant name.
    pub fn variant_to_key(variant: &str) -> (r: Option<u16>)
        ensures
            r == Self::spec_variant_to_key(variant@),
    {
        if crate::entries::str_eq(variant, "MaxZones") {
            Some(0x33)
        } else if crate::entries::str_eq(variant, "MaxTwilightPoints") {
            Some(0x34)
        } else if crate::entries::str_eq(variant, "MaxStorage") {
            Some(0x35)
        } else if crate::entries::str_eq(variant, "MaxFunctionDefs") {
            Some(0x36)
        } else if crate::entries::str_eq(variant, "MaxInstructionDefs") {
            Some(0x37)
        } else if crate::entries::str_eq(variant, "MaxStackElements") {
            Some(0x38)
        } else if crate::entries::str_eq(variant, "HeadFlags") {
            Some(0x39)
        } else if crate::entries::str_eq(variant, "HeadUnitsPerEm") {
            Some(0x3a)
        } else if crate::entries::str_eq(variant, "HeadMacStyle") {
            Some(0x3b)
        } else if crate::entries::str_eq(variant, "HeadLowestRecPpem") {
            Some(0x3c)
        } else if crate::entries::str_eq(variant, "HeadFontDirectionHint") {
            Some(0x3d)
        } else if crate::entries::str_eq(variant, "Os2UsWeightClass") {
            Some(0x3e)
        } else if crate::entries::str_eq(variant, "Os2UsWidthClass") {
            Some(0x3f)
        } else if crate::entries::str_eq(variant, "Os2FsType") {
            Some(0x40)
        } else if crate::entries::str_eq(variant, "Os2YSubscriptXSize") {
            Some(0x41)
        } else if crate::entries::str_eq(variant, "Os2YSubscriptYSize") {
            Some(0x42)
        } else if crate::entries::str_eq(variant, "Os2YSubscriptXOffset") {
            Some(0x43)
        } else if crate::entries::str_eq(variant, "Os2YSubscriptYOffset") {
            Some(0x44)
        } else if crate::entries::str_eq(variant, "Os2YSuperscriptXSize") {
            Some(0x45)
        } else if crate::entries::str_eq(variant, "Os2YSuperscriptYSize") {
            Some(0x46)
        } else if crate::entries::str_eq(variant, "Os2YSuperscriptXOffset") {
            Some(0x47)
        } else if crate::entries::str_eq(variant, "Os2YSuperscriptYOffset") {
            Some(0x48)
        } else if crate::entries::str_eq(variant, "Os2YStrikeoutSize") {
            Some(0x49)
        } else if crate::entries::str_eq(variant, "Os2YStrikeoutPosition") {
            Some(0x4a)
        } else if crate::entries::str_eq(variant, "Os2SFamilyClass") {
            Some(0x4b)
        } else if crate::entries::str_eq(variant, "Os2Panose") {
            Some(0x4c)
        } else if crate::entries::str_eq(variant, "Os2TypoAscender") {
            Some(0x4d)
        } else if crate::entries::str_eq(variant, "Os2TypoDescender") {
            Some(0x4e)
        } else if crate::entries::str_eq(variant, "Os2TypoLineGap") {
            Some(0x4f)
        } else if crate::entries::str_eq(variant, "Os2FsSelection") {
            Some(0x50)
        } else if crate::entries::str_eq(variant, "Os2UsWinAscent") {
            Some(0x51)
        } else if crate::entries::str_eq(variant, "Os2UsWinDescent") {
            Some(0x52)
        } else if crate::entries::str_eq(variant, "HdmxPPMs1") {
            Some(0x53)
        } else if crate::entries::str_eq(variant, "Os2UlCodePageRange") {
            Some(0x54)
        } else if crate::entries::str_eq(variant, "HeadCreation") {
            Some(0x56)
        } else if crate::entries::str_eq(variant, "HeadCreation2") {
            Some(0x57)
        } else if crate::entries::str_eq(variant, "HdmxPPMs2") {
            Some(0x58)
        } else if crate::entries::str_eq(variant, "AverageWidth") {
            Some(0x5c)
        } else {
            None
        }
    }

    /// Read the record selected by the given sub-key.
    pub fn new_from_reader(key: u16, self2: &mut EntryReader) -> (res: Result<
        TrueTypeValue,
        VfbError,
    >)
        requires
            old(self2).wf(),
            spec_is_tt_key(key),
        ensures
            final(self2).wf(),
            final(self2).same_stream(old(self2)),
            res is Ok <==> spec_tt_sub(old(self2).bytes(), old(self2).posn(), key) is Some,
            res matches Ok(v) ==> spec_tt_sub(old(self2).bytes(), old(self2).posn(), key) == Some(
                (v@, final(self2).posn()),
            ),
            res is Err ==> (res matches Err(e) && (e is ReadError || e is BadValue)),
    {
        if key == 0x33 {
            match self2.read_value() {
                Ok(v) => Ok(TrueTypeValue::MaxZones(v)),
                Err(e) => Err(e),
            }
        } else if key == 0x34 {
            match self2.read_value() {
                Ok(v) => Ok(TrueTypeValue::MaxTwilightPoints(v)),
                Err(e) => Err(e),
            }
        } else if key == 0x35 {
            match self2.read_value() {
                Ok(v) => Ok(TrueTypeValue::MaxStorage(v)),
                Err(e) => Err(e),
            }
        } else if key == 0x36 {
            match self2.read_value() {
                Ok(v) => Ok(TrueTypeValue::MaxFunctionDefs(v)),
                Err(e) => Err(e),
            }
        } else if key == 0x37 {
            match self2.read_value() {
                Ok(v) => Ok(TrueTypeValue::MaxInstructionDefs(v)),
                Err(e) => Err(e),
            }
        } else if key == 0x38 {
            match self2.read_value() {
                Ok(v) => Ok(TrueTypeValue::MaxStackElements(v)),
                Err(e) => Err(e),
            }
        } else if key == 0x39 {
            match self2.read_head_flags_and_options() {
                Ok(p) => Ok(TrueTypeValue::HeadFlags(p)),
                Err(e) => Err(e),
            }
        } else if key == 0x3a {
            match self2.read_value() {
                Ok(v) => Ok(TrueTypeValue::HeadUnitsPerEm(v)),
                Err(e) => Err(e),
            }
        } else if key == 0x3b {
            match self2.read_value() {
                Ok(v) => Ok(TrueTypeValue::HeadMacStyle(v)),
                Err(e) => Err(e),
            }
        } else if key == 0x3c {
            match self2.read_value() {
                Ok(v) => Ok(TrueTypeValue::HeadLowestRecPpem(v)),
                Err(e) => Err(e),
            }
        } else if key == 0x3d {
            match self2.read_value() {
                Ok(v) => Ok(TrueTypeValue::HeadFontDirectionHint(v)),
                Err(e) => Err(e),
            }
        } else if key == 0x3e {
            match self2.read_value() {
                Ok(v) => Ok(TrueTypeValue::Os2UsWeightClass(v)),
                Err(e) => Err(e),
            }
        } else if key == 0x3f {
            match self2.read_value() {
                Ok(v) => Ok(TrueTypeValue::Os2UsWidthClass(v)),
                Err(e) => Err(e),
            }
        } else if key == 0x40 {
            match self2.read_value() {
                Ok(v) => Ok(TrueTypeValue::Os2FsType(v)),
                Err(e) => Err(e),
            }
        } else if key == 0x41 {
            match self2.read_value() {
                Ok(v) => Ok(TrueTypeValue::Os2YSubscriptXSize(v)),
                Err(e) => Err(e),
            }
        } else if key == 0x42 {
            match self2.read_value() {
                Ok(v) => Ok(TrueTypeValue::Os2YSubscriptYSize(v)),
                Err(e) => Err(e),
            }
        } else if key == 0x43 {
            match self2.read_value() {
                Ok(v) => Ok(TrueTypeValue::Os2YSubscriptXOffset(v)),
                Err(e) => Err(e),
            }
        } else if key == 0x44 {
            match self2.read_value() {
                Ok(v) => Ok(TrueTypeValue::Os2YSubscriptYOffset(v)),
                Err(e) => Err(e),
            }
        } else if key == 0x45 {
            match self2.read_value() {
                Ok(v) => Ok(TrueTypeValue::Os2YSuperscriptXSize(v)),
                Err(e) => Err(e),
            }
        } else if key == 0x46 {
            match self2.read_value() {
                Ok(v) => Ok(TrueTypeValue::Os2YSuperscriptYSize(v)),
                Err(e) => Err(e),
            }
        } else if key == 0x47 {
            match self2.read_value() {
                Ok(v) => Ok(TrueTypeValue::Os2YSuperscriptXOffset(v)),
                Err(e) => Err(e),
            }
        } else if key == 0x48 {
            match self2.read_value() {
                Ok(v) => Ok(TrueTypeValue::Os2YSuperscriptYOffset(v)),
                Err(e) => Err(e),
            }
        } else if key == 0x49 {
            match self2.read_value() {
                Ok(v) => Ok(TrueTypeValue::Os2YStrikeoutSize(v)),
                Err(e) => Err(e),
            }
        } else if key == 0x4a {
            match self2.read_value() {
                Ok(v) => Ok(TrueTypeValue::Os2YStrikeoutPosition(v)),
                Err(e) => Err(e),
            }
        } else if key == 0x4b {
            match self2.read_value() {
                Ok(v) => Ok(TrueTypeValue::Os2SFamilyClass(v)),
                Err(e) => Err(e),
            }
        } else if key == 0x4c {
            match self2.read_panose() {
                Ok(v) => Ok(TrueTypeValue::Os2Panose(v)),
                Err(e) => Err(e),
            }
        } else if key == 0x4d {
            match self2.read_value() {
                Ok(v) => Ok(TrueTypeValue::Os2TypoAscender(v)),
                Err(e) => Err(e),
            }
        } else if key == 0x4e {
            match self2.read_value() {
                Ok(v) => Ok(TrueTypeValue::Os2TypoDescender(v)),
                Err(e) => Err(e),
            }
        } else if key == 0x4f {
            match self2.read_value() {
                Ok(v) => Ok(TrueTypeValue::Os2TypoLineGap(v)),
                Err(e) => Err(e),
            }
        } else if key == 0x50 {
            match self2.read_value() {
                Ok(v) => Ok(TrueTypeValue::Os2FsSelection(v)),
                Err(e) => Err(e),
            }
        } else if key == 0x51 {
            match self2.read_value() {
                Ok(v) => Ok(TrueTypeValue::Os2UsWinAscent(v)),
                Err(e) => Err(e),
            }
        } else if key == 0x52 {
            match self2.read_value() {
                Ok(v) => Ok(TrueTypeValue::Os2UsWinDescent(v)),
                Err(e) => Err(e),
            }
        } else if key == 0x53 {
            match self2.read_vec_u8_with_value_count() {
                Ok(v) => Ok(TrueTypeValue::HdmxPPMs1(v)),
                Err(e) => Err(e),
            }
        } else if key == 0x54 {
            match self2.read_codepages() {
                Ok(p) => Ok(TrueTypeValue::Os2UlCodePageRange(p)),
                Err(e) => Err(e),
            }
        } else if key == 0x56 {
            match self2.read_value() {
                Ok(v) => Ok(TrueTypeValue::HeadCreation(v)),
                Err(e) => Err(e),
            }
        } else if key == 0x57 {
            match self2.read_value() {
                Ok(v) => Ok(TrueTypeValue::HeadCreation2(v)),
                Err(e) => Err(e),
            }
        } else if key == 0x58 {
            match self2.read_vec_u8_with_value_count() {
                Ok(v) => Ok(TrueTypeValue::HdmxPPMs2(v)),
                Err(e) => Err(e),
            }
        } else if key == 0x5c {
            match self2.read_value() {
                Ok(v) => Ok(TrueTypeValue::AverageWidth(v)),
                Err(e) => Err(e),
            }
        } else {
            Err(VfbError::UnknownEntryKey(key))
        }
    }
}

/// For every sub-key in the list's catalogue, mapping the key to its
/// variant name and back yields the key again.
pub proof fn lemma_tt_key_variant_round_trip(key: u16)
    ensures
        TrueTypeValue::spec_key_to_variant(key) matches Some(nm)
            ==> TrueTypeValue::spec_variant_to_key(nm) == Some(key),
{
    reveal_strlit("MaxZones");
    assert("MaxZones"@.len() == 8);
    reveal_strlit("MaxTwilightPoints");
    assert("MaxTwilightPoints"@.len() == 17);
    reveal_strlit("MaxStorage");
    assert("MaxStorage"@.len() == 10);
    reveal_strlit("MaxFunctionDefs");
    assert("MaxFunctionDefs"@.len() == 15);
    reveal_strlit("MaxInstructionDefs");
    assert("MaxInstructionDefs"@.len() == 18);
    reveal_strlit("MaxStackElements");
    assert("MaxStackElements"@.len() == 16);
    reveal_strlit("HeadFlags");
    assert("HeadFlags"@.len() == 9);
    reveal_strlit("HeadUnitsPerEm");
    assert("HeadUnitsPerEm"@.len() == 14);
    reveal_strlit("HeadMacStyle");
    assert("HeadMacStyle"@.len() == 12);
    reveal_strlit("HeadLowestRecPpem");
    assert("HeadLowestRecPpem"@.len() == 17);
    reveal_strlit("HeadFontDirectionHint");
    assert("HeadFontDirectionHint"@.len() == 21);
    reveal_strlit("Os2UsWeightClass");
    assert("Os2UsWeightClass"@.len() == 16);
    reveal_strlit("Os2UsWidthClass");
    assert("Os2UsWidthClass"@.len() == 15);
    reveal_strlit("Os2FsType");
    assert("Os2FsType"@.len() == 9);
    reveal_strlit("Os2YSubscriptXSize");
    assert("Os2YSubscriptXSize"@.len() == 18);
    reveal_strlit("Os2YSubscriptYSize");
    assert("Os2YSubscriptYSize"@.len() == 18);
    reveal_strlit("Os2YSubscriptXOffset");
    assert("Os2YSubscriptXOffset"@.len() == 20);
    reveal_strlit("Os2YSubscriptYOffset");
    assert("Os2YSubscriptYOffset"@.len() == 20);
    reveal_strlit("Os2YSuperscriptXSize");
    assert("Os2YSuperscriptXSize"@.len() == 20);
    reveal_strlit("Os2YSuperscriptYSize");
    assert("Os2YSuperscriptYSize"@.len() == 20);
    reveal_strlit("Os2YSuperscriptXOffset");
    assert("Os2YSuperscriptXOffset"@.len() == 22);
    reveal_strlit("Os2YSuperscriptYOffset");
    assert("Os2YSuperscriptYOffset"@.len() == 22);
    reveal_strlit("Os2YStrikeoutSize");
    assert("Os2YStrikeoutSize"@.len() == 17);
    reveal_strlit("Os2YStrikeoutPosition");
    assert("Os2YStrikeoutPosition"@.len() == 21);
    reveal_strlit("Os2SFamilyClass");
    assert("Os2SFamilyClass"@.len() == 15);
    reveal_strlit("Os2Panose");
    assert("Os2Panose"@.len() == 9);
    reveal_strlit("Os2TypoAscender");
    assert("Os2TypoAscender"@.len() == 15);
    reveal_strlit("Os2TypoDescender");
    assert("Os2TypoDescender"@.len() == 16);
    reveal_strlit("Os2TypoLineGap");
    assert("Os2TypoLineGap"@.len() == 14);
    reveal_strlit("Os2FsSelection");
    assert("Os2FsSelection"@.len() == 14);
    reveal_strlit("Os2UsWinAscent");
    assert("Os2UsWinAscent"@.len() == 14);
    reveal_strlit("Os2UsWinDescent");
    assert("Os2UsWinDescent"@.len() == 15);
    reveal_strlit("HdmxPPMs1");
    assert("HdmxPPMs1"@.len() == 9);
    reveal_strlit("Os2UlCodePageRange");
    assert("Os2UlCodePageRange"@.len() == 18);
    reveal_strlit("HeadCreation");
    assert("HeadCreation"@.len() == 12);
    reveal_strlit("HeadCreation2");
    assert("HeadCreation2"@.len() == 13);
    reveal_strlit("HdmxPPMs2");
    assert("HdmxPPMs2"@.len() == 9);
    reveal_strlit("AverageWidth");
    assert("AverageWidth"@.len() == 12);
    assert("AverageWidth"@[0] == 'A');
    assert("HdmxPPMs1"@[0] == 'H');
    assert("HdmxPPMs1"@[1] == 'd');
    assert("HdmxPPMs1"@[8] == '1');
    assert("HdmxPPMs2"@[0] == 'H');
    assert("HdmxPPMs2"@[1] == 'd');
    assert("HdmxPPMs2"@[8] == '2');
    assert("HeadCreation"@[0] == 'H');
    assert("HeadCreation"@[4] == 'C');
    assert("HeadFlags"@[0] == 'H');
    assert("HeadFlags"@[1] == 'e');
    assert("HeadFontDirectionHint"@[0] == 'H');
    assert("HeadLowestRecPpem"@[0] == 'H');
    assert("HeadMacStyle"@[0] == 'H');
    assert("HeadMacStyle"@[4] == 'M');
    assert("HeadUnitsPerEm"@[0] == 'H');
    assert("MaxFunctionDefs"@[0] == 'M');
    assert("MaxInstructionDefs"@[0] == 'M');
    assert("MaxStackElements"@[0] == 'M');
    assert("MaxTwilightPoints"@[0] == 'M');
    assert("Os2FsSelection"@[0] == 'O');
    assert("Os2FsSelection"@[3] == 'F');
    assert("Os2FsType"@[0] == 'O');
    assert("Os2FsType"@[3] == 'F');
    assert("Os2Panose"@[0] == 'O');
    assert("Os2Panose"@[3] == 'P');
    assert("Os2SFamilyClass"@[0] == 'O');
    assert("Os2SFamilyClass"@[3] == 'S');
    assert("Os2TypoAscender"@[0] == 'O');
    assert("Os2TypoAscender"@[3] == 'T');
    assert("Os2TypoDescender"@[0] == 'O');
    assert("Os2TypoDescender"@[3] == 'T');
    assert("Os2TypoLineGap"@[0] == 'O');
    assert("Os2TypoLineGap"@[3] == 'T');
    assert("Os2UlCodePageRange"@[0] == 'O');
    assert("Os2UlCodePageRange"@[3] == 'U');
    assert("Os2UsWeightClass"@[0] == 'O');
    assert("Os2UsWeightClass"@[3] == 'U');
    assert("Os2UsWidthClass"@[0] == 'O');
    assert("Os2UsWidthClass"@[3] == 'U');
    assert("Os2UsWidthClass"@[7] == 'd');
    assert("Os2UsWinAscent"@[0] == 'O');
    assert("Os2UsWinAscent"@[3] == 'U');
    assert("Os2UsWinDescent"@[0] == 'O');
    assert("Os2UsWinDescent"@[3] == 'U');
    assert("Os2UsWinDescent"@[7] == 'n');
    assert("Os2YStrikeoutPosition"@[0] == 'O');
    assert("Os2YStrikeoutSize"@[0] == 'O');
    assert("Os2YSubscriptXOffset"@[6] == 'b');
    assert("Os2YSubscriptXOffset"@[13] == 'X');
    assert("Os2YSubscriptXSize"@[0] == 'O');
    assert("Os2YSubscriptXSize"@[3] == 'Y');
    assert("Os2YSubscriptXSize"@[13] == 'X');
    assert("Os2YSubscriptYOffset"@[6] == 'b');
    assert("Os2YSubscriptYOffset"@[13] == 'Y');
    assert("Os2YSubscriptYSize"@[0] == 'O');
    assert("Os2YSubscriptYSize"@[3] == 'Y');
    assert("Os2YSubscriptYSize"@[13] == 'Y');
    assert("Os2YSuperscriptXOffset"@[15] == 'X');
    assert("Os2YSuperscriptXSize"@[6] == 'p');
    assert("Os2YSuperscriptXSize"@[15] == 'X');
    assert("Os2YSuperscriptYOffset"@[15] == 'Y');
    assert("Os2YSuperscriptYSize"@[6] == 'p');
    assert("Os2YSuperscriptYSize"@[15] == 'Y');
}

impl EntryReader {
    /// Read the head-flags word: head table flags in the low half,
    /// TrueType options in the high half.
    pub fn read_head_flags_and_options(&mut self) -> (r: Result<(TrueTypeOptions, u16), VfbError>)
        requires
            old(self).wf(),
        ensures
            final(self).wf(),
            final(self).same_stream(old(self)),
            r is Ok <==> spec_head_flags(old(self).bytes(), old(self).posn()) is Some,
            r matches Ok(p) ==> spec_head_flags(old(self).bytes(), old(self).posn()) == Some(
                ((p.0.bits, p.1), final(self).posn()),
            ),
            r is Err ==> (r matches Err(e) && (e is ReadError || e is BadValue)),
    {
        let flags_and_options = match self.read_value() {
            Ok(v) => v,
            Err(e) => { return Err(e) },
        };
        let u = #[verifier::truncate] (flags_and_options as u32);
        let flags = #[verifier::truncate] ((u % 0x10000) as u16);
        let options = #[verifier::truncate] (((u / 0x10000) % 0x10000) as u16);
        Ok((TrueTypeOptions::from_bits_truncate(options), flags))
    }

    /// Read a PANOSE tuple: exactly ten signed bytes.
    pub fn read_panose(&mut self) -> (r: Result<Vec<i8>, VfbError>)
        requires
            old(self).wf(),
        ensures
            final(self).wf(),
            final(self).same_stream(old(self)),
            r is Ok <==> spec_panose(old(self).bytes(), old(self).posn()) is Some,
            r matches Ok(v) ==> spec_panose(old(self).bytes(), old(self).posn()) == Some(
                (v@, final(self).posn()),
            ),
            r is Err ==> (r matches Err(e) && e is ReadError),
    {
        let bytes = match self.read_bytes(10) {
            Ok(b) => b,
            Err(e) => { return Err(e) },
        };
        let mut out: Vec<i8> = Vec::new();
        let mut i: usize = 0;
        while i < bytes.len()
            invariant
                i <= bytes@.len(),
                out@.len() == i,
                forall|j: int| 0 <= j < i ==> out@[j] == bytes@[j] as i8,
            decreases bytes@.len() - i,
        {
            out.push(#[verifier::truncate] (bytes[i] as i8));
            i = i + 1;
        }
        proof {
            assert(out@ =~= bytes@.map_values(|x: u8| x as i8));
        }
        Ok(out)
    }

    /// Read a byte list whose length stands before it as one encoded
    /// value.
    pub fn read_vec_u8_with_value_count(&mut self) -> (r: Result<Vec<u8>, VfbError>)
        requires
            old(self).wf(),
        ensures
            final(self).wf(),
            final(self).same_stream(old(self)),
            r is Ok <==> spec_bytes_with_count(old(self).bytes(), old(self).posn()) is Some,
            r matches Ok(v) ==> spec_bytes_with_count(old(self).bytes(), old(self).posn()) == Some(
                (v@, final(self).posn()),
            ),
            r is Err ==> (r matches Err(e) && (e is ReadError || e is BadValue)),
    {
        let n = match self.read_value() {
            Ok(v) => v,
            Err(e) => { return Err(e) },
        };
        if n < 0 {
            return Err(VfbError::ReadError);
        }
        self.read_bytes(n as u64)
    }


    /// Read the unicode-ranges payload: four little-endian 32-bit words.
    pub fn read_unicode_ranges(&mut self) -> (r: Result<(u32, u32, u32, u32), VfbError>)
        requires
            old(self).wf(),
        ensures
            final(self).wf(),
            final(self).same_stream(old(self)),
            r is Ok <==> spec_u32_quad(old(self).bytes(), old(self).posn()) is Some,
            r matches Ok(q) ==> spec_u32_quad(old(self).bytes(), old(self).posn()) == Some(
                (q, final(self).posn()),
            ),
            r is Err ==> (r matches Err(e) && e is ReadError),
    {
        let a = match self.read_u32() {
            Ok(v) => v,
            Err(e) => { return Err(e) },
        };
        let b = match self.read_u32() {
            Ok(v) => v,
            Err(e) => { return Err(e) },
        };
        let c = match self.read_u32() {
            Ok(v) => v,
            Err(e) => { return Err(e) },
        };
        let d = match self.read_u32() {
            Ok(v) => v,
            Err(e) => { return Err(e) },
        };
        Ok((a, b, c, d))
    }

    /// Read a binary table payload: the four tag bytes kept in their
    /// on-disk order, then the remainder verbatim.
    pub fn read_binary_table(&mut self) -> (r: Result<(Vec<u8>, Vec<u8>), VfbError>)
        requires
            old(self).wf(),
        ensures
            final(self).wf(),
            final(self).same_stream(old(self)),
            r is Ok <==> spec_binary_table(old(self).bytes(), old(self).posn()) is Some,
            r matches Ok(t) ==> spec_binary_table(old(self).bytes(), old(self).posn()) == Some(
                ((t.0@, t.1@), final(self).posn()),
            ),
            r is Err ==> (r matches Err(e) && e is ReadError),
    {
        let tag = match self.read_bytes(4) {
            Ok(b) => b,
            Err(e) => { return Err(e) },
        };
        let rest = match self.read_bytes_remainder() {
            Ok(b) => b,
            Err(e) => { return Err(e) },
        };
        Ok((tag, rest))
    }

    /// Read the two code-page range words.
    pub fn read_codepages(&mut self) -> (r: Result<(i32, i32), VfbError>)
        requires
            old(self).wf(),
        ensures
            final(self).wf(),
            final(self).same_stream(old(self)),
            r is Ok <==> spec_value_pair(old(self).bytes(), old(self).posn()) is Some,
            r matches Ok(p) ==> spec_value_pair(old(self).bytes(), old(self).posn()) == Some(
                (p, final(self).posn()),
            ),
            r is Err ==> (r matches Err(e) && (e is ReadError || e is BadValue)),
    {
        let cp1 = match self.read_value() {
            Ok(v) => v,
            Err(e) => { return Err(e) },
        };
        let cp2 = match self.read_value() {
            Ok(v) => v,
            Err(e) => { return Err(e) },
        };
        Ok((cp1, cp2))
    }

    /// Read the TrueType value list: sub-keyed records up to the 0x32
    /// terminator. An unknown sub-key is an error.
    #[verifier::loop_isolation(false)]
    pub fn read_truetype_values(&mut self) -> (r: Result<Vec<TrueTypeValue>, VfbError>)
        requires
            old(self).wf(),
        ensures
            final(self).wf(),
            final(self).same_stream(old(self)),
            r is Ok <==> spec_tt_run(old(self).bytes(), old(self).posn(), Seq::empty()) is Some,
            r matches Ok(v) ==> spec_tt_run(old(self).bytes(), old(self).posn(), Seq::empty())
                == Some((spec_tt_view(v@), final(self).posn())),
            r is Err ==> (r matches Err(e) && (e is ReadError || e is BadValue
                || e is UnknownEntryKey)),
            spec_tt_run_bad(old(self).bytes(), old(self).posn()) matches Some(k) ==> (r matches Err(
                e,
            ) && e matches VfbError::UnknownEntryKey(k2) && k2 == k),
            r matches Err(e) && e is UnknownEntryKey ==> spec_tt_run_bad(
                old(self).bytes(),
                old(self).posn(),
            ) is Some,
    {
        let ghost d = self.bytes();
        let ghost p0 = self.posn();
        let mut values: Vec<TrueTypeValue> = Vec::new();
        proof {
            assert(spec_tt_view(values@) =~= Seq::<TrueTypeVal>::empty());
        }
        loop
            invariant
                self.wf(),
                self.same_stream(old(self)),
                p0 <= self.posn(),
                spec_tt_run(d, p0, Seq::empty()) == spec_tt_run(
                    d,
                    self.posn(),
                    spec_tt_view(values@),
                ),
                spec_tt_run_bad(d, p0) == spec_tt_run_bad(d, self.posn()),
            decreases d.len() - self.posn(),
        {
            let ghost p_i = self.posn();
            let key = match self.read_u8() {
                Ok(v) => v,
                Err(e) => { return Err(e) },
            };
            if key == 0x32 {
                return Ok(values);
            }
            if !is_tt_key(key as u16) {
                return Err(VfbError::UnknownEntryKey(key as u16));
            }
            let value = match TrueTypeValue::new_from_reader(key as u16, self) {
                Ok(v) => v,
                Err(e) => { return Err(e) },
            };
            proof {
                lemma_tt_sub_bounds(d, (p_i + 1) as nat, key as u16);
                assert(spec_tt_view(values@.push(value)) =~= spec_tt_view(values@).push(value@));
            }
            values.push(value);
        }
    }
}

/// The executable membership test for the list's sub-keys.
fn is_tt_key(k: u16) -> (r: bool)
    ensures
        r == spec_is_tt_key(k),
{
    k == 0x33 || k == 0x34 || k == 0x35 || k == 0x36 || k == 0x37 || k == 0x38 || k == 0x39 || k == 0x3a || k == 0x3b || k == 0x3c || k == 0x3d || k == 0x3e || k == 0x3f || k == 0x40 || k == 0x41 || k == 0x42 || k == 0x43 || k == 0x44 || k == 0x45 || k == 0x46 || k == 0x47 || k == 0x48 || k == 0x49 || k == 0x4a || k == 0x4b || k == 0x4c || k == 0x4d || k == 0x4e || k == 0x4f || k == 0x50 || k == 0x51 || k == 0x52 || k == 0x53 || k == 0x54 || k == 0x56 || k == 0x57 || k == 0x58 || k == 0x5c
}

} // verus!
