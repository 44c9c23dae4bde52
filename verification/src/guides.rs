use vstd::prelude::*;

use crate::buffer::{spec_pair_rows, spec_read_value, VfbReader};
use crate::error::VfbError;

verus! {

/// One guide: its position and the raw encoded angle value. The angle in
/// degrees is `atan2(angle_value, 10000)`; turning the raw value into
/// degrees is floating-point work left to the caller.
pub struct Guide {
    pub position: i32,
    pub angle_value: i32,
}

impl View for Guide {
    type V = (i32, i32);

    open spec fn view(&self) -> (i32, i32) {
        (self.position, self.angle_value)
    }
}

/// Horizontal and vertical guides; each guide carries one (position,
/// angle) pair per master.
pub struct Guides {
    pub horizontal: Vec<Vec<Guide>>,
    pub vertical: Vec<Vec<Guide>>,
}

/// The mathematical shape of `Guides`.
pub struct GuidesVal {
    pub horizontal: Seq<Seq<(i32, i32)>>,
    pub vertical: Seq<Seq<(i32, i32)>>,
}

/// Rows of guides as rows of (position, angle) pairs.
pub open spec fn spec_guide_rows_view(rows: Seq<Vec<Guide>>) -> Seq<Seq<(i32, i32)>> {
    rows.map_values(|row: Vec<Guide>| row@.map_values(|g: Guide| g@))
}

impl View for Guides {
    type V = GuidesVal;

    open spec fn view(&self) -> GuidesVal {
        GuidesVal {
            horizontal: spec_guide_rows_view(self.horizontal@),
            vertical: spec_guide_rows_view(self.vertical@),
        }
    }
}

/// The guides payload: a count of horizontal guides, then for each guide
/// one (position, angle) pair per master; the same again for vertical
/// guides. A negative count cannot be satisfied and fails like a short
/// read.
pub open spec fn spec_read_guides(d: Seq<u8>, p: nat, m: nat) -> Option<(GuidesVal, nat)> {
    match spec_read_value(d, p) {
        Option::None => None,
        Option::Some((hc, p1)) => {
            if hc < 0 {
                None
            } else {
                match spec_pair_rows(d, p1, hc as nat, m, Seq::empty()) {
                    Option::None => None,
                    Option::Some((hrows, p2)) => match spec_read_value(d, p2) {
                        Option::None => None,
                        Option::Some((vc, p3)) => {
                            if vc < 0 {
                                None
                            } else {
                                match spec_pair_rows(d, p3, vc as nat, m, Seq::empty()) {
                                    Option::None => None,
                                    Option::Some((vrows, p4)) => Some(
                                        (GuidesVal { horizontal: hrows, vertical: vrows }, p4),
                                    ),
                                }
                            }
                        },
                    },
                }
            }
        },
    }
}

/// Turn a row of decoded (position, angle) pairs into guides.
fn guide_row_from_pairs(pairs: Vec<(i32, i32)>) -> (out: Vec<Guide>)
    ensures
        out@.map_values(|g: Guide| g@) == pairs@,
{
    let mut out: Vec<Guide> = Vec::new();
    let mut i: usize = 0;
    while i < pairs.len()
        invariant
            i <= pairs.len(),
            out@.len() == i,
            forall|j: int| 0 <= j < i ==> out@[j]@ == pairs@[j],
        decreases pairs.len() - i,
    {
        let (position, angle_value) = pairs[i];
        out.push(Guide { position, angle_value });
        i = i + 1;
    }
    proof {
        assert(out@.map_values(|g: Guide| g@) =~= pairs@);
    }
    out
}

impl VfbReader {
    /// Read one block of guide rows: a count, then that many rows of one
    /// pair per master.
    #[verifier::loop_isolation(false)]
    fn read_guide_block(&mut self) -> (r: Result<Vec<Vec<Guide>>, VfbError>)
        requires
            old(self).wf(),
        ensures
            final(self).wf(),
            final(self).same_stream(old(self)),
            r is Ok <==> (spec_read_value(old(self).bytes(), old(self).posn()) matches Some(
                (c, p1),
            ) && c >= 0 && spec_pair_rows(
                old(self).bytes(),
                p1,
                c as nat,
                old(self).masters(),
                Seq::empty(),
            ) is Some),
            r matches Ok(rows) ==> (spec_read_value(old(self).bytes(), old(self).posn())
                matches Some((c, p1)) && c >= 0 && spec_pair_rows(
                old(self).bytes(),
                p1,
                c as nat,
                old(self).masters(),
                Seq::empty(),
            ) == Some((spec_guide_rows_view(rows@), final(self).posn()))),
            r is Err ==> (r matches Err(e) && (e is ReadError || e is BadValue)),
    {
        let ghost d = self.bytes();
        let count = match self.read_value() {
            Ok(v) => v,
            Err(e) => { return Err(e) },
        };
        if count < 0 {
            return Err(VfbError::ReadError);
        }
        let ghost p1 = self.posn();
        let n = count as usize;
        let m = self.number_of_masters();
        let mut rows: Vec<Vec<Guide>> = Vec::new();
        proof {
            assert(spec_guide_rows_view(rows@) =~= Seq::<Seq<(i32, i32)>>::empty());
        }
        let mut i: usize = 0;
        while i < n
            invariant
                i <= n,
                self.wf(),
                self.same_stream(old(self)),
                spec_pair_rows(d, p1, n as nat, m as nat, Seq::empty()) == spec_pair_rows(
                    d,
                    self.posn(),
                    (n - i) as nat,
                    m as nat,
                    spec_guide_rows_view(rows@),
                ),
            decreases n - i,
        {
            let pairs = match self.read_value_pairs(m) {
                Ok(v) => v,
                Err(e) => { return Err(e) },
            };
            let row = guide_row_from_pairs(pairs);
            proof {
                assert(spec_guide_rows_view(rows@.push(row)) =~= spec_guide_rows_view(
                    rows@,
                ).push(row@.map_values(|g: Guide| g@)));
            }
            rows.push(row);
            i = i + 1;
        }
        Ok(rows)
    }

    /// Read the guides payload: horizontal guide rows, then vertical guide
    /// rows, each guide fanned out per master.
    pub fn read_guides(&mut self) -> (r: Result<Guides, VfbError>)
        requires
            old(self).wf(),
        ensures
            final(self).wf(),
            final(self).same_stream(old(self)),
            r is Ok <==> spec_read_guides(old(self).bytes(), old(self).posn(), old(self).masters())
                is Some,
            r matches Ok(g) ==> spec_read_guides(
                old(self).bytes(),
                old(self).posn(),
                old(self).masters(),
            ) == Some((g@, final(self).posn())),
            r is Err ==> (r matches Err(e) && (e is ReadError || e is BadValue)),
    {
        let horizontal = match self.read_guide_block() {
            Ok(v) => v,
            Err(e) => { return Err(e) },
        };
        let vertical = match self.read_guide_block() {
            Ok(v) => v,
            Err(e) => { return Err(e) },
        };
        Ok(Guides { horizontal, vertical })
    }
}


} // verus!
