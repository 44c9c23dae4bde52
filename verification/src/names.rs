use vstd::prelude::*;

use crate::buffer::{
    lemma_value_run_len, spec_read_value, spec_value_run, EntryReader, MAX_INPUT,
};
use crate::error::VfbError;

verus! {

pub uninterp spec fn mac_roman_of(bytes: Seq<u8>) -> Option<Seq<char>>;

/// Relies on encoding_rs's
/// `MACINTOSH.decode_without_bom_handling_and_without_replacement`: the
/// outcome depends on the input bytes alone, and a malformed sequence
/// yields `None`.
#[verifier::external_body]
fn decode_mac_roman(bytes: &[u8]) -> (r: Option<String>)
    requires
        bytes@.len() <= MAX_INPUT,
    ensures
        match r {
            Option::Some(s) => mac_roman_of(bytes@) == Some(s@),
            Option::None => mac_roman_of(bytes@) is None,
        },
{
    encoding_rs::MACINTOSH.decode_without_bom_handling_and_without_replacement(bytes).map(
        |s| s.to_string(),
    )
}

pub uninterp spec fn utf16_of(units: Seq<u16>) -> Option<Seq<char>>;

/// Relies on `String::from_utf16`: the outcome depends on the code units
/// alone, and invalid data yields an error.
#[verifier::external_body]
fn decode_utf16(units: &[u16]) -> (r: Option<String>)
    requires
        units@.len() <= MAX_INPUT,
    ensures
        match r {
            Option::Some(s) => utf16_of(units@) == Some(s@),
            Option::None => utf16_of(units@) is None,
        },
{
    String::from_utf16(units).ok()
}

/// A TrueType name record: the four 16-bit identifiers and the decoded
/// text.
pub struct NameRecord {
    pub platform_id: u16,
    pub encoding_id: u16,
    pub language_id: u16,
    pub name_id: u16,
    pub string: String,
}

/// The mathematical shape of a `NameRecord`.
pub struct NameRecordVal {
    pub platform_id: u16,
    pub encoding_id: u16,
    pub language_id: u16,
    pub name_id: u16,
    pub string: Seq<char>,
}

impl View for NameRecord {
    type V = NameRecordVal;

    open spec fn view(&self) -> NameRecordVal {
        NameRecordVal {
            platform_id: self.platform_id,
            encoding_id: self.encoding_id,
            language_id: self.language_id,
            name_id: self.name_id,
            string: self.string@,
        }
    }
}

/// The code points of a record, as the bytes a Mac Roman decode reads.
pub open spec fn spec_codes_bytes(codes: Seq<i32>) -> Seq<u8> {
    codes.map_values(|c: i32| c as u8)
}

/// The code points of a record, as the units a UTF-16 decode reads.
pub open spec fn spec_codes_units(codes: Seq<i32>) -> Seq<u16> {
    codes.map_values(|c: i32| c as u16)
}

/// What the text of a record is: Mac Roman when the platform id is 1,
/// UTF-16 otherwise; a failed decode degrades to the empty string.
pub open spec fn spec_name_string(platform_id: u16, codes: Seq<i32>) -> Seq<char> {
    if platform_id == 1 {
        match mac_roman_of(spec_codes_bytes(codes)) {
            Option::Some(s) => s,
            Option::None => Seq::empty(),
        }
    } else {
        match utf16_of(spec_codes_units(codes)) {
            Option::Some(s) => s,
            Option::None => Seq::empty(),
        }
    }
}

impl NameRecord {
    /// Build a record from its identifiers and code points. The text is
    /// decoded from Mac Roman when the platform id is 1, else from UTF-16
    /// code units; a failed decode degrades to the empty string.
    pub fn new(platform_id: u16, encoding_id: u16, language_id: u16, name_id: u16, codes: &[i32])
        -> (r: NameRecord)
        requires
            codes@.len() <= MAX_INPUT,
        ensures
            r.platform_id == platform_id,
            r.encoding_id == encoding_id,
            r.language_id == language_id,
            r.name_id == name_id,
            r.string@ == spec_name_string(platform_id, codes@),
    {
        let string: String;
        if platform_id == 1 {
            let mut bytes: Vec<u8> = Vec::new();
            let mut i: usize = 0;
            while i < codes.len()
                invariant
                    i <= codes@.len(),
                    bytes@.len() == i,
                    forall|j: int| 0 <= j < i ==> bytes@[j] == codes@[j] as u8,
                decreases codes@.len() - i,
            {
                let c = codes[i];
                bytes.push(#[verifier::truncate] (c as u8));
                i = i + 1;
            }
            proof {
                assert(bytes@ =~= spec_codes_bytes(codes@));
            }
            string = match decode_mac_roman(bytes.as_slice()) {
                Option::Some(s) => s,
                Option::None => String::new(),
            };
        } else {
            let mut units: Vec<u16> = Vec::new();
            let mut i: usize = 0;
            while i < codes.len()
                invariant
                    i <= codes@.len(),
                    units@.len() == i,
                    forall|j: int| 0 <= j < i ==> units@[j] == codes@[j] as u16,
                decreases codes@.len() - i,
            {
                let c = codes[i];
                units.push(#[verifier::truncate] (c as u16));
                i = i + 1;
            }
            proof {
                assert(units@ =~= spec_codes_units(codes@));
            }
            string = match decode_utf16(units.as_slice()) {
                Option::Some(s) => s,
                Option::None => String::new(),
            };
        }
        NameRecord { platform_id, encoding_id, language_id, name_id, string }
    }
}

/// One name record in the stream: platform, encoding, language and name
/// identifiers, then a length-prefixed run of code points. A negative
/// length cannot be satisfied and fails like a short read.
pub open spec fn spec_namerecord(d: Seq<u8>, p: nat) -> Option<(NameRecordVal, nat)> {
    match spec_value_run(d, p, 4, Seq::empty()) {
        Option::None => None,
        Option::Some((ids, p4)) => match spec_read_value(d, p4) {
            Option::None => None,
            Option::Some((len, p5)) => {
                if len < 0 {
                    None
                } else {
                    match spec_value_run(d, p5, len as nat, Seq::empty()) {
                        Option::None => None,
                        Option::Some((codes, p6)) => Some(
                            (
                                NameRecordVal {
                                    platform_id: ids[0] as u16,
                                    encoding_id: ids[1] as u16,
                                    language_id: ids[2] as u16,
                                    name_id: ids[3] as u16,
                                    string: spec_name_string(ids[0] as u16, codes),
                                },
                                p6,
                            ),
                        ),
                    }
                }
            },
        },
    }
}

/// `n` name records appended to `acc`.
pub open spec fn spec_namerecords_run(d: Seq<u8>, p: nat, n: nat, acc: Seq<NameRecordVal>)
    -> Option<(Seq<NameRecordVal>, nat)>
    decreases n,
{
    if n == 0 {
        Some((acc, p))
    } else {
        match spec_namerecord(d, p) {
            Option::None => None,
            Option::Some((rec, p1)) => spec_namerecords_run(d, p1, (n - 1) as nat, acc.push(rec)),
        }
    }
}

/// The name-records payload: a count, then that many records. A negative
/// count cannot be satisfied and fails like a short read.
pub open spec fn spec_read_namerecords(d: Seq<u8>, p: nat) -> Option<(Seq<NameRecordVal>, nat)> {
    match spec_read_value(d, p) {
        Option::None => None,
        Option::Some((n, p1)) => {
            if n < 0 {
                None
            } else {
                spec_namerecords_run(d, p1, n as nat, Seq::empty())
            }
        },
    }
}

impl EntryReader {
    /// Read the name-records payload.
    #[verifier::loop_isolation(false)]
    pub fn read_namerecords(&mut self) -> (r: Result<Vec<NameRecord>, VfbError>)
        requires
            old(self).wf(),
        ensures
            final(self).wf(),
            final(self).same_stream(old(self)),
            r is Ok <==> spec_read_namerecords(old(self).bytes(), old(self).posn()) is Some,
            r matches Ok(v) ==> spec_read_namerecords(old(self).bytes(), old(self).posn()) == Some(
                (v@.map_values(|x: NameRecord| x@), final(self).posn()),
            ),
            r is Err ==> (r matches Err(e) && (e is ReadError || e is BadValue)),
    {
        let ghost d = self.bytes();
        let count = match self.read_value() {
            Ok(v) => v,
            Err(e) => { return Err(e) },
        };
        if count < 0 {
            return Err(VfbError::ReadError);
        }
        let n = count as usize;
        let ghost p1 = self.posn();
        let mut records: Vec<NameRecord> = Vec::new();
        proof {
            assert(records@.map_values(|x: NameRecord| x@) =~= Seq::<NameRecordVal>::empty());
        }
        let mut i: usize = 0;
        while i < n
            invariant
                i <= n,
                self.wf(),
                self.same_stream(old(self)),
                spec_namerecords_run(d, p1, n as nat, Seq::empty()) == spec_namerecords_run(
                    d,
                    self.posn(),
                    (n - i) as nat,
                    records@.map_values(|x: NameRecord| x@),
                ),
            decreases n - i,
        {
            let ghost p_rec = self.posn();
            let ids = match self.read_values(4) {
                Ok(v) => v,
                Err(e) => { return Err(e) },
            };
            proof {
                lemma_value_run_len(d, p_rec, 4, Seq::empty());
            }
            let name_length = match self.read_value() {
                Ok(v) => v,
                Err(e) => { return Err(e) },
            };
            if name_length < 0 {
                return Err(VfbError::ReadError);
            }
            let ghost p_codes = self.posn();
            let codes = match self.read_values(name_length as usize) {
                Ok(v) => v,
                Err(e) => { return Err(e) },
            };
            proof {
                lemma_value_run_len(d, p_codes, name_length as nat, Seq::empty());
                crate::buffer::lemma_value_run_bounds(d, p_codes, name_length as nat, Seq::empty());
            }
            let platform_id = #[verifier::truncate] (ids[0] as u16);
            let encoding_id = #[verifier::truncate] (ids[1] as u16);
            let language_id = #[verifier::truncate] (ids[2] as u16);
            let name_id = #[verifier::truncate] (ids[3] as u16);
            let rec = NameRecord::new(
                platform_id,
                encoding_id,
                language_id,
                name_id,
                codes.as_slice(),
            );
            proof {
                assert(records@.push(rec).map_values(|x: NameRecord| x@) =~= records@.map_values(
                    |x: NameRecord| x@,
                ).push(rec@));
            }
            records.push(rec);
            i = i + 1;
        }
        Ok(records)
    }
}

} // verus!
