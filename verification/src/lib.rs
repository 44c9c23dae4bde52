use vstd::prelude::*;

pub mod buffer;
pub mod entries;
pub mod entry;
pub mod error;
pub mod glyph;
pub mod guides;
pub mod header;
pub mod names;
pub mod postscript;
pub mod truetype;
pub mod vfb_constants;

pub use error::VfbError;
pub use error::VfbFailure;

use crate::buffer::{VfbReader, MAX_INPUT};
use crate::entries::{str_eq, DecompileOut, EntryVal, spec_decompile};
use crate::entry::{spec_entry_frame, VfbEntry};
use crate::header::{spec_read_header, Header};
use crate::vfb_constants::spec_key_name;

verus! {

/// The decoded document: the header record and the ordered entries, the
/// end-of-file marker excluded.
pub struct Vfb {
    pub header: Header,
    pub entries: Vec<VfbEntry>,
}

/// The view of an entry list: each entry as its key name and payload value.
pub open spec fn spec_entries_view(es: Seq<VfbEntry>) -> Seq<(Seq<char>, EntryVal)> {
    es.map_values(|en: VfbEntry| en@)
}

/// Prepend an already decoded prefix to the outcome of decoding a tail.
pub open spec fn spec_with_prefix(
    pre: Seq<(Seq<char>, EntryVal)>,
    rest: Option<(Seq<(Seq<char>, EntryVal)>, nat)>,
) -> Option<(Seq<(Seq<char>, EntryVal)>, nat)> {
    match rest {
        Option::None => None,
        Option::Some((s, e)) => Some((pre + s, e)),
    }
}

/// The entry stream from position `p` to the end-of-file marker: each
/// framed entry is decoded through the catalogue; entries with unknown
/// keys are consumed and dropped; the entry named EOF ends the stream and
/// is not part of the document.
pub open spec fn spec_entry_stream(d: Seq<u8>, p: nat) -> Option<(Seq<(Seq<char>, EntryVal)>, nat)>
    decreases d.len() - p,
{
    match spec_entry_frame(d, p) {
        Option::None => None,
        Option::Some((k, b, q)) => match spec_key_name(k) {
            Option::None => spec_entry_stream(d, q),
            Option::Some(nm) => {
                if nm == "EOF"@ {
                    Some((Seq::empty(), q))
                } else {
                    match spec_decompile(nm, b) {
                        DecompileOut::Fail => None,
                        DecompileOut::Typed(ev) => spec_with_prefix(
                            seq![(nm, ev)],
                            spec_entry_stream(d, q),
                        ),
                        DecompileOut::Keep => spec_with_prefix(
                            seq![(nm, EntryVal::Raw(b))],
                            spec_entry_stream(d, q),
                        ),
                    }
                }
            },
        },
    }
}

/// The whole document: the header, then the entry stream.
pub open spec fn spec_decode_vfb(d: Seq<u8>) -> Option<
    (crate::header::HeaderVal, Seq<(Seq<char>, EntryVal)>),
> {
    match spec_read_header(d, 0) {
        Option::None => None,
        Option::Some((hv, p)) => match spec_entry_stream(d, p) {
            Option::None => None,
            Option::Some((es, _)) => Some((hv, es)),
        },
    }
}

/// Decode a fully loaded VFB input into a document. A failure is
/// reported with its context: the name of what was being read and the
/// byte offset at which the failure was observed.
#[verifier::loop_isolation(false)]
#[verifier::rlimit(100)]
pub fn decode_vfb(data: Vec<u8>) -> (r: Result<Vfb, VfbFailure>)
    requires
        data@.len() <= MAX_INPUT,
    ensures
        r is Ok <==> spec_decode_vfb(data@) is Some,
        r matches Ok(v) ==> spec_decode_vfb(data@) matches Some((hv, es)) && v.header@ == hv
            && spec_entries_view(v.entries@) == es,
        r matches Err(f) ==> (f.error is ReadError || f.error is BadValue),
        r matches Err(f) ==> f.offset <= data@.len(),
        spec_read_header(data@, 0) is None ==> (r matches Err(f) && f.context@ == "header"@),
{
    let ghost d = data@;
    let mut r = VfbReader::new(data);
    let header = match r.read_header() {
        Ok(h) => h,
        Err(e) => {
            let offset = r.stream_position();
            return Err(VfbFailure { error: e, context: "header".to_owned(), offset });
        },
    };
    let ghost p_h = r.posn();
    let mut entries: Vec<VfbEntry> = Vec::new();
    loop
        invariant
            r.wf(),
            r.bytes() == d,
            p_h <= r.posn(),
            spec_entry_stream(d, p_h) == spec_with_prefix(
                spec_entries_view(entries@),
                spec_entry_stream(d, r.posn()),
            ),
        decreases d.len() - r.posn(),
    {
        let p_i = r.stream_position();
        let entry_opt = match r.read_entry() {
            Ok(o) => o,
            Err(e) => {
                proof {
                    crate::entries::lemma_eof_key_is_plain();
                }
                let offset = r.stream_position();
                let context: String = match r.key_name_at(p_i) {
                    Option::Some(nm) => nm.to_owned(),
                    Option::None => "entry stream".to_owned(),
                };
                return Err(VfbFailure { error: e, context, offset });
            },
        };
        match entry_opt {
            Option::None => {},
            Option::Some(en) => {
                if str_eq(en.key.as_str(), "EOF") {
                    proof {
                        assert(spec_entries_view(entries@) + Seq::<(Seq<char>, EntryVal)>::empty()
                            =~= spec_entries_view(entries@));
                    }
                    return Ok(Vfb { header, entries });
                }
                proof {
                    let pre = spec_entries_view(entries@);
                    let x = en@;
                    assert(spec_entries_view(entries@.push(en)) =~= pre + seq![x]);
                    match spec_entry_stream(d, r.posn()) {
                        Option::None => {},
                        Option::Some((s, e)) => {
                            assert(pre + (seq![x] + s) =~= (pre + seq![x]) + s);
                        },
                    }
                }
                entries.push(en);
            },
        }
    }
}

} // verus!
