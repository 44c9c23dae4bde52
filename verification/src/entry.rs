use vstd::prelude::*;

use crate::buffer::{
    spec_read_bytes, spec_read_u16, spec_read_u32, VfbReader, MAX_INPUT,
};
use crate::entries::{DecompileOut, EntryVal, RawData, VfbEntryType, spec_decompile};
use crate::error::VfbError;
use crate::vfb_constants::{key_name, spec_key_name};

verus! {

/// One framed record of the stream: the human-readable key name and the
/// payload, decompiled where the catalogue knows the key's shape.
pub struct VfbEntry {
    pub key: String,
    pub entry: VfbEntryType,
}

impl VfbEntry {
    /// A raw payload must fit the cursor bound, so that decompiling it
    /// stays possible.
    pub open spec fn wf(&self) -> bool {
        match self.entry@ {
            EntryVal::Raw(b) => b.len() <= MAX_INPUT,
            _ => true,
        }
    }

    /// What this entry's payload becomes after a decompile pass.
    pub open spec fn spec_decompiled_entry(&self) -> DecompileOut {
        match self.entry@ {
            EntryVal::Raw(b) => spec_decompile(self.key@, b),
            _ => DecompileOut::Keep,
        }
    }

    /// Build the entry from binary data, optionally decompiling it at once.
    pub fn new_from_data(key: String, data: Vec<u8>, decompile: bool) -> (r: Result<
        VfbEntry,
        VfbError,
    >)
        requires
            data@.len() <= MAX_INPUT,
        ensures
            r is Ok <==> !(decompile && spec_decompile(key@, data@) is Fail),
            r matches Ok(en) ==> {
                &&& en.key@ == key@
                &&& en.wf()
                &&& en.entry@ == (if decompile {
                    match spec_decompile(key@, data@) {
                        DecompileOut::Typed(ev) => ev,
                        _ => EntryVal::Raw(data@),
                    }
                } else {
                    EntryVal::Raw(data@)
                })
            },
            r matches Err(e) ==> e is ReadError,
    {
        let mut slf = VfbEntry { key, entry: VfbEntryType::Raw(RawData(data)) };
        if decompile {
            match slf.decompile() {
                Ok(()) => {},
                Err(e) => { return Err(e) },
            }
        }
        Ok(slf)
    }

    /// Build the entry from already structured data.
    pub fn new_from_decompiled(key: String, entry: VfbEntryType) -> (r: VfbEntry)
        ensures
            r.key@ == key@,
            r.entry@ == entry@,
    {
        VfbEntry { key, entry }
    }

    /// Decompile a raw payload in place; an entry that is already
    /// structured is left alone.
    pub fn decompile(&mut self) -> (r: Result<(), VfbError>)
        requires
            old(self).wf(),
        ensures
            final(self).wf(),
            final(self).key@ == old(self).key@,
            r is Ok <==> !(old(self).spec_decompiled_entry() is Fail),
            r is Ok ==> final(self).entry@ == (match old(self).spec_decompiled_entry() {
                DecompileOut::Typed(ev) => ev,
                _ => old(self).entry@,
            }),
            r is Err ==> final(self).entry@ == old(self).entry@,
            r matches Err(e) ==> e is ReadError,
    {
        let decompiled_opt: Option<VfbEntryType> = match &self.entry {
            VfbEntryType::Raw(bytes) => {
                match crate::entries::decompile(self.key.as_str(), bytes.0.as_slice()) {
                    Ok(o) => o,
                    Err(e) => { return Err(e) },
                }
            },
            _ => None,
        };
        if let Some(decompiled) = decompiled_opt {
            self.entry = decompiled;
        }
        Ok(())
    }
}

impl View for VfbEntry {
    type V = (Seq<char>, EntryVal);

    open spec fn view(&self) -> (Seq<char>, EntryVal) {
        (self.key@, self.entry@)
    }
}

/// The frame of one entry: a 16-bit key whose high bit selects a 16- or
/// 32-bit payload size, then exactly that many payload bytes.
pub open spec fn spec_entry_frame(d: Seq<u8>, p: nat) -> Option<(u16, Seq<u8>, nat)> {
    match spec_read_u16(d, p) {
        Option::None => None,
        Option::Some((raw, p1)) => {
            let key = (raw % 0x8000) as u16;
            if raw >= 0x8000 {
                match spec_read_u32(d, p1) {
                    Option::None => None,
                    Option::Some((sz, p2)) => match spec_read_bytes(d, p2, sz as nat) {
                        Option::None => None,
                        Option::Some((b, p3)) => Some((key, b, p3)),
                    },
                }
            } else {
                match spec_read_u16(d, p1) {
                    Option::None => None,
                    Option::Some((sz, p2)) => match spec_read_bytes(d, p2, sz as nat) {
                        Option::None => None,
                        Option::Some((b, p3)) => Some((key, b, p3)),
                    },
                }
            }
        },
    }
}



impl VfbReader {
    /// The catalogue name of the entry whose frame starts at `p`, read
    /// without moving the cursor: for diagnostics on a failed entry.
    pub fn key_name_at(&self, p: usize) -> (r: Option<&'static str>)
        requires
            self.wf(),
        ensures
            match spec_read_u16(self.bytes(), p as nat) {
                Option::Some((raw, _)) => {
                    &&& (r is Some <==> spec_key_name((raw % 0x8000) as u16) is Some)
                    &&& (r matches Some(s) ==> spec_key_name((raw % 0x8000) as u16) == Some(s@))
                },
                Option::None => r is None,
            },
    {
        match self.peek_u16(p) {
            Option::Some(raw) => key_name(raw % 0x8000),
            Option::None => None,
        }
    }
}

/// What one frame consumes: two bytes of key, two or four bytes of size
/// as the key's high bit says, then exactly the declared payload.
pub proof fn lemma_entry_frame_consumption(d: Seq<u8>, p: nat)
    ensures
        spec_entry_frame(d, p) matches Some(r) ==> {
            let raw = spec_read_u16(d, p)->Some_0.0;
            r.2 == p + 2 + (if raw >= 0x8000 {
                4int
            } else {
                2int
            }) + r.1.len()
        },
{
}

impl VfbReader {
    /// Read one framed entry. A key outside the catalogue yields `None`:
    /// the declared payload is still consumed, so the cursor stands exactly
    /// past the entry either way.
    pub fn read_entry(&mut self) -> (r: Result<Option<VfbEntry>, VfbError>)
        requires
            old(self).wf(),
        ensures
            final(self).wf(),
            final(self).same_stream(old(self)),
            r is Ok ==> spec_entry_frame(old(self).bytes(), old(self).posn()) is Some,
            r is Ok ==> final(self).posn() == spec_entry_frame(
                old(self).bytes(),
                old(self).posn(),
            )->Some_0.2,
            r matches Ok(o) ==> (spec_entry_frame(old(self).bytes(), old(self).posn())
                matches Some((k, b, q)) && {
                match spec_key_name(k) {
                    Option::None => o is None,
                    Option::Some(nm) => o matches Some(en) && en.key@ == nm && en.wf()
                        && en.entry@ == (match spec_decompile(nm, b) {
                        DecompileOut::Typed(ev) => ev,
                        _ => EntryVal::Raw(b),
                    }),
                }
            }),
            r is Err <==> (spec_entry_frame(old(self).bytes(), old(self).posn()) is None || (
            spec_entry_frame(old(self).bytes(), old(self).posn()) matches Some((k, b, q))
                && spec_key_name(k) matches Some(nm) && spec_decompile(nm, b) is Fail)),
            r matches Err(e) ==> e is ReadError,
    {
        let raw_key = match self.read_u16() {
            Ok(v) => v,
            Err(e) => { return Err(e) },
        };
        // The raw key may be masked with 0x8000 to indicate a u32 data size
        let key = raw_key % 0x8000;

        let size: u32 = if raw_key >= 0x8000 {
            match self.read_u32() {
                Ok(v) => v,
                Err(e) => { return Err(e) },
            }
        } else {
            match self.read_u16() {
                Ok(v) => v as u32,
                Err(e) => { return Err(e) },
            }
        };

        let data = match self.read_bytes(size as u64) {
            Ok(b) => b,
            Err(e) => { return Err(e) },
        };

        match key_name(key) {
            Option::None => Ok(None),
            Option::Some(nm) => {
                let entry = match VfbEntry::new_from_data(nm.to_owned(), data, true) {
                    Ok(en) => en,
                    Err(e) => { return Err(e) },
                };
                Ok(Some(entry))
            },
        }
    }
}

} // verus!
