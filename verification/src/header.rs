use vstd::prelude::*;

use crate::buffer::{
    spec_kv_map, spec_read_bytes, spec_read_u16, spec_read_u8, win1252_of, VfbReader,
};
use crate::error::VfbError;
use std::collections::HashMap;

verus! {

/// The header of a VFB: a one-byte tag, the five-byte file-type signature,
/// a format marker, one opaque chunk, the creator key-to-value map (or its
/// synthetic default where the chunk does not announce one), two one-byte
/// trailers and a final 16-bit tail.
pub struct Header {
    pub header0: u8,
    pub filetype: String,
    pub header1: u16,
    pub chunk1: Vec<u8>,
    pub creator: HashMap<u8, i32>,
    pub end0: u8,
    pub end1: u8,
    pub end2: u16,
}

/// The mathematical shape of a `Header`.
pub struct HeaderVal {
    pub header0: u8,
    pub filetype: Seq<char>,
    pub header1: u16,
    pub chunk1: Seq<u8>,
    pub creator: Map<u8, i32>,
    pub end0: u8,
    pub end1: u8,
    pub end2: u16,
}

impl View for Header {
    type V = HeaderVal;

    open spec fn view(&self) -> HeaderVal {
        HeaderVal {
            header0: self.header0,
            filetype: self.filetype@,
            header1: self.header1,
            chunk1: self.chunk1@,
            creator: self.creator@,
            end0: self.end0,
            end1: self.end1,
            end2: self.end2,
        }
    }
}

/// The synthetic creator map substituted for the older header layout.
pub open spec fn spec_default_creator() -> Map<u8, i32> {
    Map::empty().insert(1u8, 1i32).insert(2u8, 0x05030001i32).insert(3u8, 0i32)
}

/// Whether the chunk announces the newer layout: its final two bytes are
/// 0x0A 0x00.
pub open spec fn spec_chunk_has_creator(chunk: Seq<u8>) -> bool {
    chunk.len() >= 2 && chunk[chunk.len() - 2] == 10 && chunk[chunk.len() - 1] == 0
}

/// The header layout: tag, five signature bytes, marker, a length-prefixed
/// chunk; where the chunk ends in 0x0A 0x00, a creator-chunk length and a
/// null-terminated creator map with two one-byte trailers follow, else
/// synthetic defaults stand in; a final u16 closes the header.
pub open spec fn spec_read_header(d: Seq<u8>, p: nat) -> Option<(HeaderVal, nat)> {
    match spec_read_u8(d, p) {
        Option::None => None,
        Option::Some((h0, p1)) => match spec_read_bytes(d, p1, 5) {
            Option::None => None,
            Option::Some((ft, p2)) => match spec_read_u16(d, p2) {
                Option::None => None,
                Option::Some((h1, p3)) => match spec_read_u16(d, p3) {
                    Option::None => None,
                    Option::Some((csz, p4)) => match spec_read_bytes(d, p4, csz as nat) {
                        Option::None => None,
                        Option::Some((chunk, p5)) => {
                            if spec_chunk_has_creator(chunk) {
                                match spec_read_u16(d, p5) {
                                    Option::None => None,
                                    Option::Some((_csize, p6)) => match spec_kv_map(
                                        d,
                                        p6,
                                        Map::empty(),
                                    ) {
                                        Option::None => None,
                                        Option::Some((creator, p7)) => match spec_read_u8(d, p7) {
                                            Option::None => None,
                                            Option::Some((e0, p8)) => match spec_read_u8(d, p8) {
                                                Option::None => None,
                                                Option::Some((e1, p9)) => match spec_read_u16(
                                                    d,
                                                    p9,
                                                ) {
                                                    Option::None => None,
                                                    Option::Some((e2, p10)) => Some(
                                                        (
                                                            HeaderVal {
                                                                header0: h0,
                                                                filetype: win1252_of(ft),
                                                                header1: h1,
                                                                chunk1: chunk,
                                                                creator: creator,
                                                                end0: e0,
                                                                end1: e1,
                                                                end2: e2,
                                                            },
                                                            p10,
                                                        ),
                                                    ),
                                                },
                                            },
                                        },
                                    },
                                }
                            } else {
                                match spec_read_u16(d, p5) {
                                    Option::None => None,
                                    Option::Some((e2, p6)) => Some(
                                        (
                                            HeaderVal {
                                                header0: h0,
                                                filetype: win1252_of(ft),
                                                header1: h1,
                                                chunk1: chunk,
                                                creator: spec_default_creator(),
                                                end0: 6,
                                                end1: 1,
                                                end2: e2,
                                            },
                                            p6,
                                        ),
                                    ),
                                }
                            }
                        },
                    },
                },
            },
        },
    }
}

impl VfbReader {
    /// Read the header from the cursor.
    pub fn read_header(&mut self) -> (r: Result<Header, VfbError>)
        requires
            old(self).wf(),
        ensures
            final(self).wf(),
            final(self).same_stream(old(self)),
            r is Ok <==> spec_read_header(old(self).bytes(), old(self).posn()) is Some,
            r matches Ok(h) ==> spec_read_header(old(self).bytes(), old(self).posn())
                matches Some((hv, q)) && h@ == hv && final(self).posn() == q,
            r matches Err(e) ==> (e is ReadError || e is BadValue),
    {
        let header0 = match self.read_u8() {
            Ok(v) => v,
            Err(e) => { return Err(e) },
        };
        let filetype = match self.read_str(5) {
            Ok(s) => s,
            Err(e) => { return Err(e) },
        };
        let header1 = match self.read_u16() {
            Ok(v) => v,
            Err(e) => { return Err(e) },
        };
        let chunk1_size = match self.read_u16() {
            Ok(v) => v,
            Err(e) => { return Err(e) },
        };
        let chunk1 = match self.read_bytes(chunk1_size as u64) {
            Ok(b) => b,
            Err(e) => { return Err(e) },
        };
        let creator: HashMap<u8, i32>;
        let end0: u8;
        let end1: u8;
        let n = chunk1.len();
        if n >= 2 && chunk1[n - 2] == 10 && chunk1[n - 1] == 0 {
            // The newer layout: the announced creator-chunk length is
            // redundant (the map is null-terminated), so it is read and
            // not consulted.
            let _creator_size = match self.read_u16() {
                Ok(v) => v,
                Err(e) => { return Err(e) },
            };
            creator = match self.read_key_value_map() {
                Ok(m) => m,
                Err(e) => { return Err(e) },
            };
            end0 = match self.read_u8() {
                Ok(v) => v,
                Err(e) => { return Err(e) },
            };
            end1 = match self.read_u8() {
                Ok(v) => v,
                Err(e) => { return Err(e) },
            };
        } else {
            // The older layout: substitute the synthetic defaults.
            let mut m: HashMap<u8, i32> = HashMap::new();
            m.insert(1, 1);
            m.insert(2, 0x05030001);
            m.insert(3, 0);
            proof {
                assert(m@ =~= spec_default_creator());
            }
            creator = m;
            end0 = 6;
            end1 = 1;
        }
        let end2 = match self.read_u16() {
            Ok(v) => v,
            Err(e) => { return Err(e) },
        };
        Ok(
            Header {
                header0,
                filetype,
                header1,
                chunk1,
                creator,
                end0,
                end1,
                end2,
            },
        )
    }
}

} // verus!
