use vstd::prelude::*;

use crate::error::VfbError;
use std::collections::HashMap;

verus! {

broadcast use vstd::std_specs::hash::group_hash_axioms;

/// The largest input the cursor accepts. VFB entry payload sizes are 32-bit,
/// so nothing meaningful is lost; the bound also keeps the text decoders'
/// worst-case output size representable on every host.
pub const MAX_INPUT: usize = 0x3FFF_FFF0;

/// The cap on a tail-consuming read.
pub const REMAINDER_CAP: usize = 0xFFFF;

// ---------------------------------------------------------------------------
// Mathematical model of the primitive reads.
//
// A cursor state is a byte sequence `d` and a position `p`. Each spec
// function either yields the decoded item together with the position after
// it, or `None` when fewer bytes remain than the item needs.
// ---------------------------------------------------------------------------

pub open spec fn spec_read_u8(d: Seq<u8>, p: nat) -> Option<(u8, nat)> {
    if p + 1 <= d.len() {
        Some((d[p as int], (p + 1) as nat))
    } else {
        None
    }
}

pub open spec fn spec_read_u16(d: Seq<u8>, p: nat) -> Option<(u16, nat)> {
    if p + 2 <= d.len() {
        Some((((d[p as int] as int) + 0x100 * (d[p as int + 1] as int)) as u16, (p + 2) as nat))
    } else {
        None
    }
}

pub open spec fn spec_read_u32(d: Seq<u8>, p: nat) -> Option<(u32, nat)> {
    if p + 4 <= d.len() {
        Some(
            (((d[p as int] as int) + 0x100 * (d[p as int + 1] as int) + 0x1_0000 * (d[p as int + 2] as int)
                + 0x100_0000 * (d[p as int + 3] as int)) as u32, (p + 4) as nat),
        )
    } else {
        None
    }
}

pub open spec fn spec_read_u64(d: Seq<u8>, p: nat) -> Option<(u64, nat)> {
    if p + 8 <= d.len() {
        Some(
            (((d[p as int] as int) + 0x100 * (d[p as int + 1] as int) + 0x1_0000 * (d[p as int + 2] as int)
                + 0x100_0000 * (d[p as int + 3] as int) + 0x1_0000_0000 * (d[p as int + 4] as int)
                + 0x100_0000_0000 * (d[p as int + 5] as int) + 0x1_0000_0000_0000 * (d[p as int + 6] as int)
                + 0x100_0000_0000_0000 * (d[p as int + 7] as int)) as u64, (p + 8) as nat),
        )
    } else {
        None
    }
}

/// The two's-complement reading of four big-endian bytes.
pub open spec fn spec_be_i32(b0: u8, b1: u8, b2: u8, b3: u8) -> int {
    let n = 0x100_0000 * (b0 as int) + 0x1_0000 * (b1 as int) + 0x100 * (b2 as int) + (b3 as int);
    if n >= 0x8000_0000 {
        n - 0x1_0000_0000
    } else {
        n
    }
}

/// A charstring value whose lead byte is below 32 is malformed.
pub open spec fn spec_value_bad(d: Seq<u8>, p: nat) -> bool {
    p < d.len() && d[p as int] < 32
}

/// The Type 1 charstring number encoding. One byte for values -107..107,
/// two bytes for 108..1131 and -1131..-108, and a 255-prefixed five-byte
/// form holding a big-endian signed 32-bit integer. `None` covers both a
/// short read and a lead byte below 32.
pub open spec fn spec_read_value(d: Seq<u8>, p: nat) -> Option<(i32, nat)> {
    if p >= d.len() {
        None
    } else {
        let v = d[p as int] as int;
        if v < 32 {
            None
        } else if v <= 246 {
            Some(((v - 139) as i32, (p + 1) as nat))
        } else if v <= 254 {
            if p + 2 <= d.len() {
                let w = d[p as int + 1] as int;
                if v <= 250 {
                    Some((((v - 247) * 256 + w + 108) as i32, (p + 2) as nat))
                } else {
                    Some(((-((v - 251) * 256) - w - 108) as i32, (p + 2) as nat))
                }
            } else {
                None
            }
        } else {
            if p + 5 <= d.len() {
                Some(
                    (spec_be_i32(d[p as int + 1], d[p as int + 2], d[p as int + 3], d[p as int + 4]) as i32, (p + 5) as nat),
                )
            } else {
                None
            }
        }
    }
}


/// How many bytes one encoded value consumes: a lead byte in 32..=246 is
/// one byte; in 247..=254 it takes one more byte; 255 takes four more; a
/// lead byte below 32 is rejected and decodes nothing.
pub proof fn lemma_value_consumption(d: Seq<u8>, p: nat)
    ensures
        p < d.len() && 32 <= d[p as int] <= 246 ==> (spec_read_value(d, p) matches Some(r) && r.1
            == p + 1),
        p < d.len() && 247 <= d[p as int] <= 254 && p + 2 <= d.len() ==> (spec_read_value(d, p)
            matches Some(r) && r.1 == p + 2),
        p < d.len() && d[p as int] == 255 && p + 5 <= d.len() ==> (spec_read_value(d, p)
            matches Some(r) && r.1 == p + 5),
        p < d.len() && d[p as int] < 32 ==> spec_read_value(d, p) is None && spec_value_bad(d, p),
{
}

pub open spec fn spec_read_bytes(d: Seq<u8>, p: nat, n: nat) -> Option<(Seq<u8>, nat)> {
    if p + n <= d.len() {
        Some((d.subrange(p as int, (p + n) as int), (p + n) as nat))
    } else {
        None
    }
}

/// A tail-consuming read takes everything left, but at most `REMAINDER_CAP`
/// bytes.
pub open spec fn spec_remainder_len(d: Seq<u8>, p: nat) -> nat {
    if d.len() - p <= REMAINDER_CAP as int {
        (d.len() - p) as nat
    } else {
        REMAINDER_CAP as nat
    }
}

/// The null-terminated key-to-value map: one-byte keys, charstring-encoded
/// values, ended by a zero key that is consumed but not stored. Later
/// occurrences of a key override earlier ones.
pub open spec fn spec_kv_map(d: Seq<u8>, p: nat, acc: Map<u8, i32>) -> Option<
    (Map<u8, i32>, nat),
>
    decreases d.len() - p,
{
    match spec_read_u8(d, p) {
        Option::None => None,
        Option::Some((k, p1)) => {
            if k == 0 {
                Some((acc, p1))
            } else {
                match spec_read_value(d, p1) {
                    Option::None => None,
                    Option::Some((v, p2)) => spec_kv_map(d, p2, acc.insert(k, v)),
                }
            }
        },
    }
}

/// What `spec_kv_map` guarantees of every successful parse: the zero key is
/// never stored, at least one byte is consumed, and the last consumed byte
/// is the terminating zero key.
pub proof fn lemma_kv_map_props(d: Seq<u8>, p: nat, acc: Map<u8, i32>)
    requires
        !acc.contains_key(0),
    ensures
        spec_kv_map(d, p, acc) matches Some(r) ==> {
            &&& !r.0.contains_key(0)
            &&& p < r.1 <= d.len()
            &&& d[r.1 - 1] == 0
        },
    decreases d.len() - p,
{
    if spec_kv_map(d, p, acc) is Some {
        match spec_read_u8(d, p) {
            Option::None => {},
            Option::Some((k, p1)) => {
                if k != 0 {
                    match spec_read_value(d, p1) {
                        Option::None => {},
                        Option::Some((v, p2)) => {
                            lemma_kv_map_props(d, p2, acc.insert(k, v));
                        },
                    }
                }
            },
        }
    }
}

// ---------------------------------------------------------------------------
// Windows-1252 text decoding, through encoding_rs.
// ---------------------------------------------------------------------------

pub uninterp spec fn win1252_of(bytes: Seq<u8>) -> Seq<char>;

/// Relies on encoding_rs's `WINDOWS_1252.decode`: the decoded text is a
/// function of the input bytes alone, and an empty input decodes to an
/// empty string.
#[verifier::external_body]
pub(crate) fn decode_win1252(bytes: &[u8]) -> (r: String)
    requires
        bytes@.len() <= MAX_INPUT,
    ensures
        r@ == win1252_of(bytes@),
        bytes@.len() == 0 ==> r@.len() == 0,
{
    let (s, _, _) = encoding_rs::WINDOWS_1252.decode(bytes);
    s.to_string()
}


/// A length-prefixed string: one encoded value gives the byte count, then
/// that many bytes of Windows-1252 text. A negative count cannot be used
/// as a host index and fails.
pub open spec fn spec_read_str_with_len(d: Seq<u8>, p: nat) -> Option<(Seq<char>, nat)> {
    match spec_read_value(d, p) {
        Option::None => None,
        Option::Some((n, p1)) => {
            if n < 0 {
                None
            } else {
                match spec_read_bytes(d, p1, n as nat) {
                    Option::None => None,
                    Option::Some((b, p2)) => Some((win1252_of(b), p2)),
                }
            }
        },
    }
}

// ---------------------------------------------------------------------------
// The cursor.
// ---------------------------------------------------------------------------

/// A seekable little-endian byte cursor over a fully loaded input, carrying
/// the master count that an early entry establishes and later per-master
/// payloads consult.
pub struct VfbReader {
    data: Vec<u8>,
    pos: usize,
    number_of_masters: usize,
}

impl VfbReader {
    /// The bytes the cursor ranges over.
    pub closed spec fn bytes(&self) -> Seq<u8> {
        self.data@
    }

    /// The current read position.
    pub closed spec fn posn(&self) -> nat {
        self.pos as nat
    }

    /// The master count this cursor carries.
    pub closed spec fn masters(&self) -> nat {
        self.number_of_masters as nat
    }

    pub open spec fn wf(&self) -> bool {
        self.posn() <= self.bytes().len() && self.bytes().len() <= MAX_INPUT
    }

    /// True when the cursor neither moved nor changed its bytes or masters.
    pub open spec fn same_stream(&self, other: &VfbReader) -> bool {
        self.bytes() == other.bytes() && self.masters() == other.masters()
    }

    pub fn new(data: Vec<u8>) -> (r: VfbReader)
        requires
            data@.len() <= MAX_INPUT,
        ensures
            r.wf(),
            r.bytes() == data@,
            r.posn() == 0,
            r.masters() == 1,
    {
        VfbReader { data, pos: 0, number_of_masters: 1 }
    }

    pub fn stream_position(&self) -> (r: usize)
        ensures
            r == self.posn(),
    {
        self.pos
    }

    pub fn number_of_masters(&self) -> (r: usize)
        ensures
            r == self.masters(),
    {
        self.number_of_masters
    }

    pub fn set_number_of_masters(&mut self, n: usize)
        requires
            old(self).wf(),
        ensures
            final(self).wf(),
            final(self).bytes() == old(self).bytes(),
            final(self).posn() == old(self).posn(),
            final(self).masters() == n,
    {
        self.number_of_masters = n;
    }


    /// Open a scoped sub-cursor over exactly `size` bytes of this cursor:
    /// the payload window of one framed entry. The parent advances past
    /// the window; the child carries the parent's master count and cannot
    /// read beyond its declared size.
    pub fn scoped(&mut self, size: u64) -> (r: Result<EntryReader, VfbError>)
        requires
            old(self).wf(),
        ensures
            final(self).wf(),
            final(self).same_stream(old(self)),
            r is Ok <==> spec_read_bytes(old(self).bytes(), old(self).posn(), size as nat) is Some,
            r matches Ok(er) ==> (spec_read_bytes(old(self).bytes(), old(self).posn(), size as nat)
                matches Some((b, q)) && er.bytes() == b && er.posn() == 0 && er.masters() == old(
                self,
            ).masters() && final(self).posn() == q && er.wf()),
            r is Err ==> (r matches Err(e) && e is ReadError && final(self).posn() == old(
                self,
            ).posn()),
    {
        let masters = self.number_of_masters();
        let data = match self.read_bytes(size) {
            Ok(b) => b,
            Err(e) => { return Err(e) },
        };
        Ok(EntryReader::new(data, masters))
    }


    /// Read the little-endian u16 at an arbitrary position without moving
    /// the cursor.
    pub fn peek_u16(&self, p: usize) -> (r: Option<u16>)
        requires
            self.wf(),
        ensures
            r is Some <==> spec_read_u16(self.bytes(), p as nat) is Some,
            r matches Some(v) ==> spec_read_u16(self.bytes(), p as nat) matches Some((w, _)) && v
                == w,
    {
        if p < self.data.len() && p + 2 <= self.data.len() {
            let b0 = self.data[p];
            let b1 = self.data[p + 1];
            Some(b0 as u16 + 0x100 * (b1 as u16))
        } else {
            None
        }
    }

    /// Read a u8 value from the cursor.
    pub fn read_u8(&mut self) -> (r: Result<u8, VfbError>)
        requires
            old(self).wf(),
        ensures
            final(self).wf(),
            final(self).same_stream(old(self)),
            r is Ok <==> spec_read_u8(old(self).bytes(), old(self).posn()) is Some,
            r matches Ok(v) ==> spec_read_u8(old(self).bytes(), old(self).posn()) == Some(
                (v, final(self).posn()),
            ),
            r is Err ==> (r matches Err(e) && e is ReadError && final(self).posn() == old(self).posn()),
    {
        if self.pos < self.data.len() {
            let v = self.data[self.pos];
            self.pos = self.pos + 1;
            Ok(v)
        } else {
            Err(VfbError::ReadError)
        }
    }

    /// Read a little-endian u16 value from the cursor.
    pub fn read_u16(&mut self) -> (r: Result<u16, VfbError>)
        requires
            old(self).wf(),
        ensures
            final(self).wf(),
            final(self).same_stream(old(self)),
            r is Ok <==> spec_read_u16(old(self).bytes(), old(self).posn()) is Some,
            r matches Ok(v) ==> spec_read_u16(old(self).bytes(), old(self).posn()) == Some(
                (v, final(self).posn()),
            ),
            r is Err ==> (r matches Err(e) && e is ReadError),
    {
        if self.pos + 2 <= self.data.len() {
            let b0 = self.data[self.pos];
            let b1 = self.data[self.pos + 1];
            self.pos = self.pos + 2;
            Ok(b0 as u16 + 0x100 * (b1 as u16))
        } else {
            Err(VfbError::ReadError)
        }
    }

    /// Read a little-endian u32 value from the cursor.
    pub fn read_u32(&mut self) -> (r: Result<u32, VfbError>)
        requires
            old(self).wf(),
        ensures
            final(self).wf(),
            final(self).same_stream(old(self)),
            r is Ok <==> spec_read_u32(old(self).bytes(), old(self).posn()) is Some,
            r matches Ok(v) ==> spec_read_u32(old(self).bytes(), old(self).posn()) == Some(
                (v, final(self).posn()),
            ),
            r is Err ==> (r matches Err(e) && e is ReadError),
    {
        if self.pos + 4 <= self.data.len() {
            let b0 = self.data[self.pos];
            let b1 = self.data[self.pos + 1];
            let b2 = self.data[self.pos + 2];
            let b3 = self.data[self.pos + 3];
            self.pos = self.pos + 4;
            Ok(b0 as u32 + 0x100 * (b1 as u32) + 0x1_0000 * (b2 as u32) + 0x100_0000 * (b3 as u32))
        } else {
            Err(VfbError::ReadError)
        }
    }

    /// Read a little-endian u64 value from the cursor. The container stores
    /// IEEE-754 doubles this way; the caller keeps the raw bits.
    pub fn read_u64(&mut self) -> (r: Result<u64, VfbError>)
        requires
            old(self).wf(),
        ensures
            final(self).wf(),
            final(self).same_stream(old(self)),
            r is Ok <==> spec_read_u64(old(self).bytes(), old(self).posn()) is Some,
            r matches Ok(v) ==> spec_read_u64(old(self).bytes(), old(self).posn()) == Some(
                (v, final(self).posn()),
            ),
            r is Err ==> (r matches Err(e) && e is ReadError),
    {
        if self.pos + 8 <= self.data.len() {
            let b0 = self.data[self.pos] as u64;
            let b1 = self.data[self.pos + 1] as u64;
            let b2 = self.data[self.pos + 2] as u64;
            let b3 = self.data[self.pos + 3] as u64;
            let b4 = self.data[self.pos + 4] as u64;
            let b5 = self.data[self.pos + 5] as u64;
            let b6 = self.data[self.pos + 6] as u64;
            let b7 = self.data[self.pos + 7] as u64;
            self.pos = self.pos + 8;
            Ok(
                b0 + 0x100 * b1 + 0x1_0000 * b2 + 0x100_0000 * b3 + 0x1_0000_0000 * b4
                    + 0x100_0000_0000 * b5 + 0x1_0000_0000_0000 * b6 + 0x100_0000_0000_0000 * b7,
            )
        } else {
            Err(VfbError::ReadError)
        }
    }

    /// Read an "encoded value": the Adobe Type 1 charstring number encoding.
    /// One byte encodes -107..107; two bytes encode 108..1131 and
    /// -1131..-108; a 255 lead byte is followed by a big-endian signed
    /// 32-bit integer. A lead byte below 32 is an error.
    pub fn read_value(&mut self) -> (r: Result<i32, VfbError>)
        requires
            old(self).wf(),
        ensures
            final(self).wf(),
            final(self).same_stream(old(self)),
            r is Ok <==> spec_read_value(old(self).bytes(), old(self).posn()) is Some,
            r matches Ok(v) ==> spec_read_value(old(self).bytes(), old(self).posn()) == Some(
                (v, final(self).posn()),
            ),
            r is Err ==> (r matches Err(e) && (e is ReadError || e is BadValue)),
            r is Err && spec_value_bad(old(self).bytes(), old(self).posn()) ==> (r matches Err(
                e,
            ) && e matches VfbError::BadValue(b) && b == old(self).bytes()[old(
                self,
            ).posn() as int]),
            r is Err && !spec_value_bad(old(self).bytes(), old(self).posn()) ==> (r matches Err(
                e,
            ) && e is ReadError),
            r is Err && spec_value_bad(old(self).bytes(), old(self).posn()) ==> final(self).posn()
                == old(self).posn() + 1,
    {
        let v = match self.read_u8() {
            Ok(x) => x,
            Err(e) => { return Err(e) },
        };
        if v < 32 {
            Err(VfbError::BadValue(v))
        } else if v <= 246 {
            Ok(v as i32 - 139)
        } else if v <= 254 {
            let w = match self.read_u8() {
                Ok(x) => x,
                Err(e) => { return Err(e) },
            };
            if v <= 250 {
                Ok((v as i32 - 247) * 256 + w as i32 + 108)
            } else {
                Ok(-((v as i32 - 251) * 256) - w as i32 - 108)
            }
        } else {
            let b0 = match self.read_u8() {
                Ok(x) => x,
                Err(e) => { return Err(e) },
            };
            let b1 = match self.read_u8() {
                Ok(x) => x,
                Err(e) => { return Err(e) },
            };
            let b2 = match self.read_u8() {
                Ok(x) => x,
                Err(e) => { return Err(e) },
            };
            let b3 = match self.read_u8() {
                Ok(x) => x,
                Err(e) => { return Err(e) },
            };
            let n: i64 = 0x100_0000 * (b0 as i64) + 0x1_0000 * (b1 as i64) + 0x100 * (b2 as i64)
                + (b3 as i64);
            if n >= 0x8000_0000 {
                Ok((n - 0x1_0000_0000) as i32)
            } else {
                Ok(n as i32)
            }
        }
    }

    /// Read the specified number of bytes from the cursor.
    pub fn read_bytes(&mut self, bytes_to_read: u64) -> (r: Result<Vec<u8>, VfbError>)
        requires
            old(self).wf(),
        ensures
            final(self).wf(),
            final(self).same_stream(old(self)),
            r is Ok <==> spec_read_bytes(old(self).bytes(), old(self).posn(), bytes_to_read as nat)
                is Some,
            r matches Ok(b) ==> spec_read_bytes(
                old(self).bytes(),
                old(self).posn(),
                bytes_to_read as nat,
            ) == Some((b@, final(self).posn())),
            r is Err ==> (r matches Err(e) && e is ReadError && final(self).posn() == old(self).posn()),
    {
        let remaining = self.data.len() - self.pos;
        if bytes_to_read > remaining as u64 {
            return Err(VfbError::ReadError);
        }
        let n = bytes_to_read as usize;
        let mut buf: Vec<u8> = Vec::new();
        let mut i: usize = 0;
        while i < n
            invariant
                i <= n,
                n <= self.data.len() - self.pos,
                self.wf(),
                buf@ == self.bytes().subrange(self.posn() as int, self.posn() + i),
            decreases n - i,
        {
            buf.push(self.data[self.pos + i]);
            i = i + 1;
            proof {
                assert(buf@ =~= self.bytes().subrange(self.posn() as int, self.posn() + i));
            }
        }
        self.pos = self.pos + n;
        Ok(buf)
    }

    /// Read the remaining bytes from the cursor, capped at `REMAINDER_CAP`.
    pub fn read_bytes_remainder(&mut self) -> (r: Result<Vec<u8>, VfbError>)
        requires
            old(self).wf(),
        ensures
            final(self).wf(),
            final(self).same_stream(old(self)),
            r matches Ok(b) && spec_read_bytes(
                old(self).bytes(),
                old(self).posn(),
                spec_remainder_len(old(self).bytes(), old(self).posn()),
            ) == Some((b@, final(self).posn())),
    {
        let remaining = self.data.len() - self.pos;
        let n: u64 = if remaining > REMAINDER_CAP {
            REMAINDER_CAP as u64
        } else {
            remaining as u64
        };
        self.read_bytes(n)
    }

    /// Read `bytes_to_read` bytes and decode them as Windows-1252 text.
    pub fn read_str(&mut self, bytes_to_read: u64) -> (r: Result<String, VfbError>)
        requires
            old(self).wf(),
        ensures
            final(self).wf(),
            final(self).same_stream(old(self)),
            r is Ok <==> spec_read_bytes(old(self).bytes(), old(self).posn(), bytes_to_read as nat)
                is Some,
            r matches Ok(s) ==> spec_read_bytes(
                old(self).bytes(),
                old(self).posn(),
                bytes_to_read as nat,
            ) matches Some((b, q)) && s@ == win1252_of(b) && final(self).posn() == q,
            r is Err ==> (r matches Err(e) && e is ReadError && final(self).posn() == old(self).posn()),
    {
        let buf = match self.read_bytes(bytes_to_read) {
            Ok(b) => b,
            Err(e) => { return Err(e) },
        };
        let s = decode_win1252(buf.as_slice());
        Ok(s)
    }

    /// Read the remaining bytes (capped at `REMAINDER_CAP`) and decode them
    /// as Windows-1252 text.
    pub fn read_str_remainder(&mut self) -> (r: Result<String, VfbError>)
        requires
            old(self).wf(),
        ensures
            final(self).wf(),
            final(self).same_stream(old(self)),
            r matches Ok(s) && spec_read_bytes(
                old(self).bytes(),
                old(self).posn(),
                spec_remainder_len(old(self).bytes(), old(self).posn()),
            ) matches Some((b, q)) && s@ == win1252_of(b) && final(self).posn() == q,
    {
        let buf = match self.read_bytes_remainder() {
            Ok(b) => b,
            Err(e) => { return Err(e) },
        };
        let s = decode_win1252(buf.as_slice());
        Ok(s)
    }

    /// Read a key-value map: one-byte keys, each followed by one encoded
    /// value; a zero key ends the map and is not stored.
    #[verifier::loop_isolation(false)]
    pub fn read_key_value_map(&mut self) -> (r: Result<HashMap<u8, i32>, VfbError>)
        requires
            old(self).wf(),
        ensures
            final(self).wf(),
            final(self).same_stream(old(self)),
            r is Ok <==> spec_kv_map(old(self).bytes(), old(self).posn(), Map::empty()) is Some,
            r matches Ok(m) ==> spec_kv_map(old(self).bytes(), old(self).posn(), Map::empty())
                == Some((m@, final(self).posn())),
            r matches Ok(m) ==> !m@.contains_key(0) && old(self).posn() < final(self).posn()
                && final(self).bytes()[final(self).posn() - 1] == 0,
            r is Err ==> (r matches Err(e) && (e is ReadError || e is BadValue)),
    {
        let ghost d = self.bytes();
        let ghost p0 = self.posn();
        let ghost m0 = self.masters();
        let mut map: HashMap<u8, i32> = HashMap::new();
        loop
            invariant
                self.wf(),
                self.bytes() == d,
                self.masters() == m0,
                p0 <= self.posn(),
                spec_kv_map(d, p0, Map::empty()) == spec_kv_map(d, self.posn(), map@),
            decreases d.len() - self.posn(),
        {
            let k = match self.read_u8() {
                Ok(x) => x,
                Err(e) => { return Err(e) },
            };
            if k == 0 {
                proof {
                    lemma_kv_map_props(d, p0, Map::empty());
                }
                return Ok(map);
            }
            let v = match self.read_value() {
                Ok(x) => x,
                Err(e) => { return Err(e) },
            };
            map.insert(k, v);
        }
    }

    /// Read `n` encoded values.
    #[verifier::loop_isolation(false)]
    pub fn read_values(&mut self, n: usize) -> (r: Result<Vec<i32>, VfbError>)
        requires
            old(self).wf(),
        ensures
            final(self).wf(),
            final(self).same_stream(old(self)),
            r is Ok <==> spec_value_run(old(self).bytes(), old(self).posn(), n as nat, Seq::empty())
                is Some,
            r matches Ok(v) ==> spec_value_run(
                old(self).bytes(),
                old(self).posn(),
                n as nat,
                Seq::empty(),
            ) == Some((v@, final(self).posn())),
            r is Err ==> (r matches Err(e) && (e is ReadError || e is BadValue)),
    {
        let ghost d = self.bytes();
        let ghost p0 = self.posn();
        let mut out: Vec<i32> = Vec::new();
        let mut i: usize = 0;
        while i < n
            invariant
                i <= n,
                self.wf(),
                self.same_stream(old(self)),
                spec_value_run(d, p0, n as nat, Seq::empty()) == spec_value_run(
                    d,
                    self.posn(),
                    (n - i) as nat,
                    out@,
                ),
            decreases n - i,
        {
            let v = match self.read_value() {
                Ok(v) => v,
                Err(e) => { return Err(e) },
            };
            out.push(v);
            i = i + 1;
        }
        Ok(out)
    }

    /// Read `n` pairs of encoded values.
    #[verifier::loop_isolation(false)]
    pub fn read_value_pairs(&mut self, n: usize) -> (r: Result<Vec<(i32, i32)>, VfbError>)
        requires
            old(self).wf(),
        ensures
            final(self).wf(),
            final(self).same_stream(old(self)),
            r is Ok <==> spec_pair_run(old(self).bytes(), old(self).posn(), n as nat, Seq::empty())
                is Some,
            r matches Ok(v) ==> spec_pair_run(
                old(self).bytes(),
                old(self).posn(),
                n as nat,
                Seq::empty(),
            ) == Some((v@, final(self).posn())),
            r is Err ==> (r matches Err(e) && (e is ReadError || e is BadValue)),
    {
        let ghost d = self.bytes();
        let ghost p0 = self.posn();
        let mut out: Vec<(i32, i32)> = Vec::new();
        let mut i: usize = 0;
        while i < n
            invariant
                i <= n,
                self.wf(),
                self.same_stream(old(self)),
                spec_pair_run(d, p0, n as nat, Seq::empty()) == spec_pair_run(
                    d,
                    self.posn(),
                    (n - i) as nat,
                    out@,
                ),
            decreases n - i,
        {
            let a = match self.read_value() {
                Ok(v) => v,
                Err(e) => { return Err(e) },
            };
            let b = match self.read_value() {
                Ok(v) => v,
                Err(e) => { return Err(e) },
            };
            out.push((a, b));
            i = i + 1;
        }
        Ok(out)
    }
}



// ---------------------------------------------------------------------------
// Runs of encoded values.
//
// Payloads repeat small units: single encoded values, (a, b) pairs, and
// rows of per-master pairs. Each run is modelled as a fold from an
// accumulated prefix, which is exactly the shape of the executable loops.
// ---------------------------------------------------------------------------

/// Two encoded values in a row.
pub open spec fn spec_value_pair(d: Seq<u8>, p: nat) -> Option<((i32, i32), nat)> {
    match spec_read_value(d, p) {
        Option::None => None,
        Option::Some((a, p1)) => match spec_read_value(d, p1) {
            Option::None => None,
            Option::Some((b, p2)) => Some(((a, b), p2)),
        },
    }
}

/// `n` encoded values appended to `acc`.
pub open spec fn spec_value_run(d: Seq<u8>, p: nat, n: nat, acc: Seq<i32>) -> Option<
    (Seq<i32>, nat),
>
    decreases n,
{
    if n == 0 {
        Some((acc, p))
    } else {
        match spec_read_value(d, p) {
            Option::None => None,
            Option::Some((v, p1)) => spec_value_run(d, p1, (n - 1) as nat, acc.push(v)),
        }
    }
}

/// `n` encoded-value pairs appended to `acc`.
pub open spec fn spec_pair_run(d: Seq<u8>, p: nat, n: nat, acc: Seq<(i32, i32)>) -> Option<
    (Seq<(i32, i32)>, nat),
>
    decreases n,
{
    if n == 0 {
        Some((acc, p))
    } else {
        match spec_value_pair(d, p) {
            Option::None => None,
            Option::Some((ab, p1)) => spec_pair_run(d, p1, (n - 1) as nat, acc.push(ab)),
        }
    }
}

/// `rows` rows of `m` encoded-value pairs each, appended to `acc`.
pub open spec fn spec_pair_rows(
    d: Seq<u8>,
    p: nat,
    rows: nat,
    m: nat,
    acc: Seq<Seq<(i32, i32)>>,
) -> Option<(Seq<Seq<(i32, i32)>>, nat)>
    decreases rows,
{
    if rows == 0 {
        Some((acc, p))
    } else {
        match spec_pair_run(d, p, m, Seq::empty()) {
            Option::None => None,
            Option::Some((row, p1)) => spec_pair_rows(d, p1, (rows - 1) as nat, m, acc.push(row)),
        }
    }
}

pub proof fn lemma_value_run_bounds(d: Seq<u8>, p: nat, n: nat, acc: Seq<i32>)
    requires
        p <= d.len(),
    ensures
        spec_value_run(d, p, n, acc) matches Some(r) ==> p + n <= r.1 <= d.len(),
    decreases n,
{
    if n > 0 && spec_value_run(d, p, n, acc) is Some {
        let (v, p1) = spec_read_value(d, p)->Some_0;
        lemma_value_run_bounds(d, p1, (n - 1) as nat, acc.push(v));
    }
}


pub proof fn lemma_value_run_len(d: Seq<u8>, p: nat, n: nat, acc: Seq<i32>)
    ensures
        spec_value_run(d, p, n, acc) matches Some(r) ==> r.0.len() == acc.len() + n,
    decreases n,
{
    if n > 0 && spec_value_run(d, p, n, acc) is Some {
        let (v, p1) = spec_read_value(d, p)->Some_0;
        lemma_value_run_len(d, p1, (n - 1) as nat, acc.push(v));
    }
}

pub proof fn lemma_pair_run_bounds(d: Seq<u8>, p: nat, n: nat, acc: Seq<(i32, i32)>)
    requires
        p <= d.len(),
    ensures
        spec_pair_run(d, p, n, acc) matches Some(r) ==> p <= r.1 <= d.len(),
    decreases n,
{
    if n > 0 && spec_pair_run(d, p, n, acc) is Some {
        let (ab, p1) = spec_value_pair(d, p)->Some_0;
        lemma_pair_run_bounds(d, p1, (n - 1) as nat, acc.push(ab));
    }
}

pub proof fn lemma_pair_rows_bounds(d: Seq<u8>, p: nat, rows: nat, m: nat, acc: Seq<Seq<(i32, i32)>>)
    requires
        p <= d.len(),
    ensures
        spec_pair_rows(d, p, rows, m, acc) matches Some(r) ==> p <= r.1 <= d.len(),
    decreases rows,
{
    if rows > 0 && spec_pair_rows(d, p, rows, m, acc) is Some {
        let (row, p1) = spec_pair_run(d, p, m, Seq::empty())->Some_0;
        lemma_pair_run_bounds(d, p, m, Seq::empty());
        lemma_pair_rows_bounds(d, p1, (rows - 1) as nat, m, acc.push(row));
    }
}

// ---------------------------------------------------------------------------
// The payload cursor.
// ---------------------------------------------------------------------------

/// The cursor a key-specific payload reader works on. It ranges over the
/// bytes of exactly one framed entry, so a reader can neither over-read its
/// declared window nor disturb the outer stream, and it carries the master
/// count that per-master payloads fan out over.
pub struct EntryReader {
    pub(crate) r: VfbReader,
}

impl EntryReader {
    pub closed spec fn bytes(&self) -> Seq<u8> {
        self.r.bytes()
    }

    pub closed spec fn posn(&self) -> nat {
        self.r.posn()
    }

    pub closed spec fn masters(&self) -> nat {
        self.r.masters()
    }

    pub open spec fn wf(&self) -> bool {
        self.posn() <= self.bytes().len() && self.bytes().len() <= MAX_INPUT
    }

    pub open spec fn same_stream(&self, other: &EntryReader) -> bool {
        self.bytes() == other.bytes() && self.masters() == other.masters()
    }

    pub fn new(data: Vec<u8>, number_of_masters: usize) -> (r: EntryReader)
        requires
            data@.len() <= MAX_INPUT,
        ensures
            r.wf(),
            r.bytes() == data@,
            r.posn() == 0,
            r.masters() == number_of_masters,
    {
        let mut inner = VfbReader::new(data);
        inner.set_number_of_masters(number_of_masters);
        EntryReader { r: inner }
    }

    pub fn stream_position(&self) -> (r: usize)
        ensures
            r == self.posn(),
    {
        self.r.stream_position()
    }

    pub fn number_of_masters(&self) -> (r: usize)
        ensures
            r == self.masters(),
    {
        self.r.number_of_masters()
    }

    pub fn read_u8(&mut self) -> (r: Result<u8, VfbError>)
        requires
            old(self).wf(),
        ensures
            final(self).wf(),
            final(self).same_stream(old(self)),
            r is Ok <==> spec_read_u8(old(self).bytes(), old(self).posn()) is Some,
            r matches Ok(v) ==> spec_read_u8(old(self).bytes(), old(self).posn()) == Some(
                (v, final(self).posn()),
            ),
            r is Err ==> (r matches Err(e) && e is ReadError && final(self).posn() == old(
                self,
            ).posn()),
    {
        self.r.read_u8()
    }

    pub fn read_u16(&mut self) -> (r: Result<u16, VfbError>)
        requires
            old(self).wf(),
        ensures
            final(self).wf(),
            final(self).same_stream(old(self)),
            r is Ok <==> spec_read_u16(old(self).bytes(), old(self).posn()) is Some,
            r matches Ok(v) ==> spec_read_u16(old(self).bytes(), old(self).posn()) == Some(
                (v, final(self).posn()),
            ),
            r is Err ==> (r matches Err(e) && e is ReadError),
    {
        self.r.read_u16()
    }


    /// Read a little-endian u32 value.
    pub fn read_u32(&mut self) -> (r: Result<u32, VfbError>)
        requires
            old(self).wf(),
        ensures
            final(self).wf(),
            final(self).same_stream(old(self)),
            r is Ok <==> spec_read_u32(old(self).bytes(), old(self).posn()) is Some,
            r matches Ok(v) ==> spec_read_u32(old(self).bytes(), old(self).posn()) == Some(
                (v, final(self).posn()),
            ),
            r is Err ==> (r matches Err(e) && e is ReadError),
    {
        self.r.read_u32()
    }

    pub fn read_u64(&mut self) -> (r: Result<u64, VfbError>)
        requires
            old(self).wf(),
        ensures
            final(self).wf(),
            final(self).same_stream(old(self)),
            r is Ok <==> spec_read_u64(old(self).bytes(), old(self).posn()) is Some,
            r matches Ok(v) ==> spec_read_u64(old(self).bytes(), old(self).posn()) == Some(
                (v, final(self).posn()),
            ),
            r is Err ==> (r matches Err(e) && e is ReadError),
    {
        self.r.read_u64()
    }

    pub fn read_value(&mut self) -> (r: Result<i32, VfbError>)
        requires
            old(self).wf(),
        ensures
            final(self).wf(),
            final(self).same_stream(old(self)),
            r is Ok <==> spec_read_value(old(self).bytes(), old(self).posn()) is Some,
            r matches Ok(v) ==> spec_read_value(old(self).bytes(), old(self).posn()) == Some(
                (v, final(self).posn()),
            ),
            r is Err ==> (r matches Err(e) && (e is ReadError || e is BadValue)),
            r is Err && spec_value_bad(old(self).bytes(), old(self).posn()) ==> (r matches Err(e)
                && e is BadValue && final(self).posn() == old(self).posn() + 1),
    {
        self.r.read_value()
    }

    pub fn read_bytes(&mut self, bytes_to_read: u64) -> (r: Result<Vec<u8>, VfbError>)
        requires
            old(self).wf(),
        ensures
            final(self).wf(),
            final(self).same_stream(old(self)),
            r is Ok <==> spec_read_bytes(old(self).bytes(), old(self).posn(), bytes_to_read as nat)
                is Some,
            r matches Ok(b) ==> spec_read_bytes(
                old(self).bytes(),
                old(self).posn(),
                bytes_to_read as nat,
            ) == Some((b@, final(self).posn())),
            r is Err ==> (r matches Err(e) && e is ReadError && final(self).posn() == old(
                self,
            ).posn()),
    {
        self.r.read_bytes(bytes_to_read)
    }

    pub fn read_bytes_remainder(&mut self) -> (r: Result<Vec<u8>, VfbError>)
        requires
            old(self).wf(),
        ensures
            final(self).wf(),
            final(self).same_stream(old(self)),
            r matches Ok(b) && spec_read_bytes(
                old(self).bytes(),
                old(self).posn(),
                spec_remainder_len(old(self).bytes(), old(self).posn()),
            ) == Some((b@, final(self).posn())),
    {
        self.r.read_bytes_remainder()
    }

    /// Read a string whose byte length stands before it as one encoded
    /// value. A negative declared length cannot be used as a host index.
    pub fn read_str_with_len(&mut self) -> (r: Result<String, VfbError>)
        requires
            old(self).wf(),
        ensures
            final(self).wf(),
            final(self).same_stream(old(self)),
            r is Ok <==> spec_read_str_with_len(old(self).bytes(), old(self).posn()) is Some,
            r matches Ok(s) ==> spec_read_str_with_len(old(self).bytes(), old(self).posn())
                matches Some((t, q)) && s@ == t && final(self).posn() == q,
            r is Err ==> (r matches Err(e) && (e is ReadError || e is BadValue || e is Overflow)),
            (spec_read_value(old(self).bytes(), old(self).posn()) matches Some(v) && v.0 < 0) ==> (
            r matches Err(e) && e is Overflow),
    {
        let n = match self.r.read_value() {
            Ok(v) => v,
            Err(e) => { return Err(e) },
        };
        if n < 0 {
            return Err(VfbError::Overflow(#[verifier::truncate] (n as u32)));
        }
        self.r.read_str(n as u64)
    }

    /// Read `n` encoded values.
    pub fn read_values(&mut self, n: usize) -> (r: Result<Vec<i32>, VfbError>)
        requires
            old(self).wf(),
        ensures
            final(self).wf(),
            final(self).same_stream(old(self)),
            r is Ok <==> spec_value_run(old(self).bytes(), old(self).posn(), n as nat, Seq::empty())
                is Some,
            r matches Ok(v) ==> spec_value_run(
                old(self).bytes(),
                old(self).posn(),
                n as nat,
                Seq::empty(),
            ) == Some((v@, final(self).posn())),
            r is Err ==> (r matches Err(e) && (e is ReadError || e is BadValue)),
    {
        self.r.read_values(n)
    }

    /// Read `n` pairs of encoded values.
    pub fn read_value_pairs(&mut self, n: usize) -> (r: Result<Vec<(i32, i32)>, VfbError>)
        requires
            old(self).wf(),
        ensures
            final(self).wf(),
            final(self).same_stream(old(self)),
            r is Ok <==> spec_pair_run(old(self).bytes(), old(self).posn(), n as nat, Seq::empty())
                is Some,
            r matches Ok(v) ==> spec_pair_run(
                old(self).bytes(),
                old(self).posn(),
                n as nat,
                Seq::empty(),
            ) == Some((v@, final(self).posn())),
            r is Err ==> (r matches Err(e) && (e is ReadError || e is BadValue)),
    {
        self.r.read_value_pairs(n)
    }
}


impl EntryReader {
    /// Read the guides payload from a payload cursor.
    pub fn read_guides(&mut self) -> (r: Result<crate::guides::Guides, VfbError>)
        requires
            old(self).wf(),
        ensures
            final(self).wf(),
            final(self).same_stream(old(self)),
            r is Ok <==> crate::guides::spec_read_guides(
                old(self).bytes(),
                old(self).posn(),
                old(self).masters(),
            ) is Some,
            r matches Ok(g) ==> crate::guides::spec_read_guides(
                old(self).bytes(),
                old(self).posn(),
                old(self).masters(),
            ) == Some((g@, final(self).posn())),
            r is Err ==> (r matches Err(e) && (e is ReadError || e is BadValue)),
    {
        self.r.read_guides()
    }
}

} // verus!
