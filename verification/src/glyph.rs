use vstd::prelude::*;

use crate::buffer::{
    lemma_pair_rows_bounds, lemma_pair_run_bounds, lemma_value_run_bounds, spec_pair_run,
    spec_pair_rows, spec_read_bytes, spec_read_str_with_len, spec_read_u64, spec_read_u8,
    spec_read_value, spec_remainder_len, spec_value_pair, spec_value_run, EntryReader,
};
use crate::entries::RawData;
use crate::error::VfbError;
use crate::guides::{spec_read_guides, Guides, GuidesVal};
use std::collections::HashMap;

verus! {

broadcast use vstd::std_specs::hash::group_hash_axioms;

/// One hint: a position and a width, both encoded values.
pub struct Hint {
    pub position: i32,
    pub width: i32,
}

impl View for Hint {
    type V = (i32, i32);

    open spec fn view(&self) -> (i32, i32) {
        (self.position, self.width)
    }
}

/// One hint mask record, tagged by its one-byte sub-key: 1 horizontal,
/// 2 vertical, 0xFF a replacement point.
pub enum HintMask {
    Horizontal(i32),
    Vertical(i32),
    ReplacementPoint(i32),
}

/// The hints payload: per-master horizontal and vertical hints, then the
/// hint masks.
pub struct Hints {
    pub horizontal: Vec<Vec<Hint>>,
    pub vertical: Vec<Vec<Hint>>,
    pub masks: Vec<HintMask>,
}

/// The mathematical shape of `Hints`.
pub struct HintsVal {
    pub horizontal: Seq<Seq<(i32, i32)>>,
    pub vertical: Seq<Seq<(i32, i32)>>,
    pub masks: Seq<HintMask>,
}

/// Rows of hints as rows of (position, width) pairs.
pub open spec fn spec_hint_rows_view(rows: Seq<Vec<Hint>>) -> Seq<Seq<(i32, i32)>> {
    rows.map_values(|row: Vec<Hint>| row@.map_values(|h: Hint| h@))
}

impl View for Hints {
    type V = HintsVal;

    open spec fn view(&self) -> HintsVal {
        HintsVal {
            horizontal: spec_hint_rows_view(self.horizontal@),
            vertical: spec_hint_rows_view(self.vertical@),
            masks: self.masks@,
        }
    }
}

/// The four path commands, selected by the low nibble of a node's command
/// byte: 0 move, 1 line, 3 curve, 4 quadratic curve.
pub enum PathCommand {
    Move,
    Line,
    Curve,
    QCurve,
}

impl PathCommand {
    /// Decode the low nibble of a command byte; any nibble but 0, 1, 3, 4
    /// is invalid.
    pub fn try_from(value: u8) -> (r: Result<PathCommand, VfbError>)
        ensures
            r is Ok <==> (value == 0 || value == 1 || value == 3 || value == 4),
            value == 0 ==> (r matches Ok(c) && c is Move),
            value == 1 ==> (r matches Ok(c) && c is Line),
            value == 3 ==> (r matches Ok(c) && c is Curve),
            value == 4 ==> (r matches Ok(c) && c is QCurve),
            r matches Err(e) ==> e matches VfbError::InvalidPathCommand(b) && b == value,
    {
        match value {
            0 => Ok(PathCommand::Move),
            1 => Ok(PathCommand::Line),
            3 => Ok(PathCommand::Curve),
            4 => Ok(PathCommand::QCurve),
            _ => Err(VfbError::InvalidPathCommand(value)),
        }
    }
}

/// One outline node. Every node carries one absolute end point per layer;
/// curves carry one or two further control-point lists. The high nibble of
/// the command byte is kept as flags.
pub enum Node {
    Move { coords: Vec<(i32, i32)>, flags: u8 },
    Line { coords: Vec<(i32, i32)>, flags: u8 },
    Curve {
        coords: Vec<(i32, i32)>,
        c1_coords: Vec<(i32, i32)>,
        c2_coords: Vec<(i32, i32)>,
        flags: u8,
    },
    QCurve { coords: Vec<(i32, i32)>, c1_coords: Vec<(i32, i32)>, flags: u8 },
}

/// The mathematical shape of a `Node`.
pub enum NodeVal {
    Move(Seq<(i32, i32)>, u8),
    Line(Seq<(i32, i32)>, u8),
    Curve(Seq<(i32, i32)>, Seq<(i32, i32)>, Seq<(i32, i32)>, u8),
    QCurve(Seq<(i32, i32)>, Seq<(i32, i32)>, u8),
}

impl View for Node {
    type V = NodeVal;

    open spec fn view(&self) -> NodeVal {
        match self {
            Node::Move { coords, flags } => NodeVal::Move(coords@, *flags),
            Node::Line { coords, flags } => NodeVal::Line(coords@, *flags),
            Node::Curve { coords, c1_coords, c2_coords, flags } => NodeVal::Curve(
                coords@,
                c1_coords@,
                c2_coords@,
                *flags,
            ),
            Node::QCurve { coords, c1_coords, flags } => NodeVal::QCurve(
                coords@,
                c1_coords@,
                *flags,
            ),
        }
    }
}

/// One component reference: a glyph index, then per master an (x, y)
/// offset pair of encoded values and two IEEE-754 double-precision scales.
/// The scales are kept as their raw little-endian bit patterns; turning
/// them into floating-point numbers is left to the caller.
pub struct Component {
    pub glyph_index: u32,
    pub x_offset: Vec<i32>,
    pub y_offset: Vec<i32>,
    pub x_scale_bits: Vec<u64>,
    pub y_scale_bits: Vec<u64>,
}

/// The mathematical shape of a `Component`.
pub struct ComponentVal {
    pub glyph_index: u32,
    pub x_offset: Seq<i32>,
    pub y_offset: Seq<i32>,
    pub x_scale_bits: Seq<u64>,
    pub y_scale_bits: Seq<u64>,
}

impl View for Component {
    type V = ComponentVal;

    open spec fn view(&self) -> ComponentVal {
        ComponentVal {
            glyph_index: self.glyph_index,
            x_offset: self.x_offset@,
            y_offset: self.y_offset@,
            x_scale_bits: self.x_scale_bits@,
            y_scale_bits: self.y_scale_bits@,
        }
    }
}

/// One anchor point.
pub struct Anchor {
    pub x: i32,
    pub y: i32,
}

impl View for Anchor {
    type V = (i32, i32);

    open spec fn view(&self) -> (i32, i32) {
        (self.x, self.y)
    }
}

/// Supplemental anchor data: a hue and a reserved word.
pub struct AnchorsSupplemental {
    pub hue: i32,
    pub reserved: i32,
}

impl View for AnchorsSupplemental {
    type V = (i32, i32);

    open spec fn view(&self) -> (i32, i32) {
        (self.hue, self.reserved)
    }
}

/// One glyph sub-entry, tagged by its one-byte sub-key.
pub enum GlyphEntry {
    GlyphName(String),
    Metrics(Vec<(i32, i32)>),
    Hints(Hints),
    Guides(Guides),
    Components(Vec<Component>),
    Kerning(HashMap<i32, Vec<i32>>),
    Outlines(Vec<Node>),
    Binary(RawData),
    Instructions(RawData),
}

/// The mathematical shape of a `GlyphEntry`.
pub enum GlyphEntryVal {
    GlyphName(Seq<char>),
    Metrics(Seq<(i32, i32)>),
    Hints(HintsVal),
    Guides(GuidesVal),
    Components(Seq<ComponentVal>),
    Kerning(Map<i32, Seq<i32>>),
    Outlines(Seq<NodeVal>),
    Binary(Seq<u8>),
    Instructions(Seq<u8>),
}

/// A kerning table as a map from right-glyph id to per-master values.
pub open spec fn spec_kerning_view(m: Map<i32, Vec<i32>>) -> Map<i32, Seq<i32>> {
    m.map_values(|v: Vec<i32>| v@)
}

impl View for GlyphEntry {
    type V = GlyphEntryVal;

    open spec fn view(&self) -> GlyphEntryVal {
        match self {
            GlyphEntry::GlyphName(s) => GlyphEntryVal::GlyphName(s@),
            GlyphEntry::Metrics(v) => GlyphEntryVal::Metrics(v@),
            GlyphEntry::Hints(h) => GlyphEntryVal::Hints(h@),
            GlyphEntry::Guides(g) => GlyphEntryVal::Guides(g@),
            GlyphEntry::Components(c) => GlyphEntryVal::Components(
                c@.map_values(|x: Component| x@),
            ),
            GlyphEntry::Kerning(k) => GlyphEntryVal::Kerning(spec_kerning_view(k@)),
            GlyphEntry::Outlines(n) => GlyphEntryVal::Outlines(n@.map_values(|x: Node| x@)),
            GlyphEntry::Binary(b) => GlyphEntryVal::Binary(b.0@),
            GlyphEntry::Instructions(b) => GlyphEntryVal::Instructions(b.0@),
        }
    }
}

// ---------------------------------------------------------------------------
// Hint decoding.
// ---------------------------------------------------------------------------

/// `n` hint-mask records appended to `acc`: a one-byte sub-key, then one
/// encoded value. An unknown sub-key consumes only its key byte and adds
/// no mask.
pub open spec fn spec_hint_masks(d: Seq<u8>, p: nat, n: nat, acc: Seq<HintMask>) -> Option<
    (Seq<HintMask>, nat),
>
    decreases n,
{
    if n == 0 {
        Some((acc, p))
    } else {
        match spec_read_u8(d, p) {
            Option::None => None,
            Option::Some((k, p1)) => {
                if k == 1 {
                    match spec_read_value(d, p1) {
                        Option::None => None,
                        Option::Some((v, p2)) => spec_hint_masks(
                            d,
                            p2,
                            (n - 1) as nat,
                            acc.push(HintMask::Horizontal(v)),
                        ),
                    }
                } else if k == 2 {
                    match spec_read_value(d, p1) {
                        Option::None => None,
                        Option::Some((v, p2)) => spec_hint_masks(
                            d,
                            p2,
                            (n - 1) as nat,
                            acc.push(HintMask::Vertical(v)),
                        ),
                    }
                } else if k == 0xff {
                    match spec_read_value(d, p1) {
                        Option::None => None,
                        Option::Some((v, p2)) => spec_hint_masks(
                            d,
                            p2,
                            (n - 1) as nat,
                            acc.push(HintMask::ReplacementPoint(v)),
                        ),
                    }
                } else {
                    spec_hint_masks(d, p1, (n - 1) as nat, acc)
                }
            },
        }
    }
}

/// The hints payload: a count of horizontal hints, each one (position,
/// width) pair per master; the same for vertical hints; then a count of
/// hint masks. A negative count cannot be satisfied and fails like a
/// short read.
pub open spec fn spec_read_hints(d: Seq<u8>, p: nat, m: nat) -> Option<(HintsVal, nat)> {
    match spec_read_value(d, p) {
        Option::None => None,
        Option::Some((hc, p1)) => {
            if hc < 0 {
                None
            } else {
                match spec_pair_rows(d, p1, hc as nat, m, Seq::empty()) {
                    Option::None => None,
                    Option::Some((hrows, p2)) => match spec_read_value(d, p2) {
                        Option::None => None,
                        Option::Some((vc, p3)) => {
                            if vc < 0 {
                                None
                            } else {
                                match spec_pair_rows(d, p3, vc as nat, m, Seq::empty()) {
                                    Option::None => None,
                                    Option::Some((vrows, p4)) => match spec_read_value(d, p4) {
                                        Option::None => None,
                                        Option::Some((mc, p5)) => {
                                            if mc < 0 {
                                                None
                                            } else {
                                                match spec_hint_masks(
                                                    d,
                                                    p5,
                                                    mc as nat,
                                                    Seq::empty(),
                                                ) {
                                                    Option::None => None,
                                                    Option::Some((masks, p6)) => Some(
                                                        (
                                                            HintsVal {
                                                                horizontal: hrows,
                                                                vertical: vrows,
                                                                masks: masks,
                                                            },
                                                            p6,
                                                        ),
                                                    ),
                                                }
                                            }
                                        },
                                    },
                                }
                            }
                        },
                    },
                }
            }
        },
    }
}

// ---------------------------------------------------------------------------
// Outline decoding.
// ---------------------------------------------------------------------------

/// `n` delta pairs folded into the running accumulator `(cx, cy)` with
/// wrapping 32-bit addition; the absolute positions are appended to `acc`.
pub open spec fn spec_points(
    d: Seq<u8>,
    p: nat,
    n: nat,
    cx: i32,
    cy: i32,
    acc: Seq<(i32, i32)>,
) -> Option<((Seq<(i32, i32)>, i32, i32), nat)>
    decreases n,
{
    if n == 0 {
        Some(((acc, cx, cy), p))
    } else {
        match spec_value_pair(d, p) {
            Option::None => None,
            Option::Some(((dx, dy), p1)) => {
                let nx = vstd::wrapping::i32_specs::wrapping_add(cx, dx);
                let ny = vstd::wrapping::i32_specs::wrapping_add(cy, dy);
                spec_points(d, p1, (n - 1) as nat, nx, ny, acc.push((nx, ny)))
            },
        }
    }
}

/// One node: a command byte whose low nibble picks the shape and whose
/// high nibble is kept as flags, then one delta pair per layer for the end
/// point, and for curves one or two further per-layer delta lists. The
/// accumulator runs on across all lists and all nodes.
pub open spec fn spec_node(d: Seq<u8>, p: nat, layers: nat, cx: i32, cy: i32) -> Option<
    ((NodeVal, i32, i32), nat),
> {
    match spec_read_u8(d, p) {
        Option::None => None,
        Option::Some((byte, p1)) => {
            let cmd = byte % 16;
            let flags = byte / 16;
            if cmd == 0 {
                match spec_points(d, p1, layers, cx, cy, Seq::empty()) {
                    Option::None => None,
                    Option::Some(((pts, x1, y1), p2)) => Some(
                        ((NodeVal::Move(pts, flags), x1, y1), p2),
                    ),
                }
            } else if cmd == 1 {
                match spec_points(d, p1, layers, cx, cy, Seq::empty()) {
                    Option::None => None,
                    Option::Some(((pts, x1, y1), p2)) => Some(
                        ((NodeVal::Line(pts, flags), x1, y1), p2),
                    ),
                }
            } else if cmd == 3 {
                match spec_points(d, p1, layers, cx, cy, Seq::empty()) {
                    Option::None => None,
                    Option::Some(((pts, x1, y1), p2)) => match spec_points(
                        d,
                        p2,
                        layers,
                        x1,
                        y1,
                        Seq::empty(),
                    ) {
                        Option::None => None,
                        Option::Some(((c1, x2, y2), p3)) => match spec_points(
                            d,
                            p3,
                            layers,
                            x2,
                            y2,
                            Seq::empty(),
                        ) {
                            Option::None => None,
                            Option::Some(((c2, x3, y3), p4)) => Some(
                                ((NodeVal::Curve(pts, c1, c2, flags), x3, y3), p4),
                            ),
                        },
                    },
                }
            } else if cmd == 4 {
                match spec_points(d, p1, layers, cx, cy, Seq::empty()) {
                    Option::None => None,
                    Option::Some(((pts, x1, y1), p2)) => match spec_points(
                        d,
                        p2,
                        layers,
                        x1,
                        y1,
                        Seq::empty(),
                    ) {
                        Option::None => None,
                        Option::Some(((c1, x2, y2), p3)) => Some(
                            ((NodeVal::QCurve(pts, c1, flags), x2, y2), p3),
                        ),
                    },
                }
            } else {
                None
            }
        },
    }
}

/// `n` nodes appended to `acc`, threading the coordinate accumulator.
pub open spec fn spec_nodes(
    d: Seq<u8>,
    p: nat,
    layers: nat,
    n: nat,
    cx: i32,
    cy: i32,
    acc: Seq<NodeVal>,
) -> Option<(Seq<NodeVal>, nat)>
    decreases n,
{
    if n == 0 {
        Some((acc, p))
    } else {
        match spec_node(d, p, layers, cx, cy) {
            Option::None => None,
            Option::Some(((nd, x1, y1), p1)) => spec_nodes(
                d,
                p1,
                layers,
                (n - 1) as nat,
                x1,
                y1,
                acc.push(nd),
            ),
        }
    }
}


/// The first invalid command nibble met while decoding an outlines
/// payload, where the counts parse and every earlier node is well-formed;
/// `None` where decoding succeeds or fails for another reason (a short
/// read or a bad encoded value).
pub open spec fn spec_nodes_bad_cmd(
    d: Seq<u8>,
    p: nat,
    layers: nat,
    n: nat,
    cx: i32,
    cy: i32,
) -> Option<u8>
    decreases n,
{
    if n == 0 {
        None
    } else {
        match spec_read_u8(d, p) {
            Option::None => None,
            Option::Some((byte, p1)) => {
                let cmd = byte % 16;
                if !(cmd == 0 || cmd == 1 || cmd == 3 || cmd == 4) {
                    Some(cmd)
                } else {
                    match spec_node(d, p, layers, cx, cy) {
                        Option::None => None,
                        Option::Some(((nd, x1, y1), q)) => spec_nodes_bad_cmd(
                            d,
                            q,
                            layers,
                            (n - 1) as nat,
                            x1,
                            y1,
                        ),
                    }
                }
            },
        }
    }
}

pub open spec fn spec_outlines_bad_cmd(d: Seq<u8>, p: nat) -> Option<u8> {
    match spec_read_value(d, p) {
        Option::None => None,
        Option::Some((layers, p1)) => {
            if layers < 0 {
                None
            } else {
                match spec_read_value(d, p1) {
                    Option::None => None,
                    Option::Some((_skip, p2)) => match spec_read_value(d, p2) {
                        Option::None => None,
                        Option::Some((n, p3)) => {
                            if n < 0 {
                                None
                            } else {
                                spec_nodes_bad_cmd(d, p3, layers as nat, n as nat, 0, 0)
                            }
                        },
                    },
                }
            }
        },
    }
}

/// The outlines payload: the layer count, one skipped "node values" word,
/// the node count, then the nodes. The coordinate accumulator starts at
/// (0, 0) and is never reset. Decoding is a function of the bytes and the
/// layer count alone.
pub open spec fn spec_read_outlines(d: Seq<u8>, p: nat) -> Option<(Seq<NodeVal>, nat)> {
    match spec_read_value(d, p) {
        Option::None => None,
        Option::Some((layers, p1)) => {
            if layers < 0 {
                None
            } else {
                match spec_read_value(d, p1) {
                    Option::None => None,
                    Option::Some((_skip, p2)) => match spec_read_value(d, p2) {
                        Option::None => None,
                        Option::Some((n, p3)) => {
                            if n < 0 {
                                None
                            } else {
                                spec_nodes(d, p3, layers as nat, n as nat, 0, 0, Seq::empty())
                            }
                        },
                    },
                }
            }
        },
    }
}


/// Outline decoding is a function of the byte stream alone: decoding the
/// same bytes from the same position yields the same nodes and the same
/// coordinates, the running accumulator included.
pub proof fn lemma_outlines_deterministic(d1: Seq<u8>, p1: nat, d2: Seq<u8>, p2: nat)
    requires
        d1 == d2,
        p1 == p2,
    ensures
        spec_read_outlines(d1, p1) == spec_read_outlines(d2, p2),
{
}


// ---------------------------------------------------------------------------
// The running-sum reading of an outline.
//
// An outline's recorded points, flattened across every node and every
// control-point list in stream order, are the running wrapping sums of
// the raw delta pairs read from the stream, starting at (0, 0) and never
// reset. The definitions below name the two flattened sequences, and the
// lemmas prove the correspondence.
// ---------------------------------------------------------------------------

/// One wrapping step of the accumulator.
pub open spec fn spec_wrap_step(prev: (i32, i32), delta: (i32, i32)) -> (i32, i32) {
    (
        vstd::wrapping::i32_specs::wrapping_add(prev.0, delta.0),
        vstd::wrapping::i32_specs::wrapping_add(prev.1, delta.1),
    )
}

/// The points are the running wrapping sums of the deltas from `start`:
/// the j-th point is the (j-1)-th point plus the j-th delta, and the
/// first point is `start` plus the first delta.
pub open spec fn spec_running_sums(
    start: (i32, i32),
    ds: Seq<(i32, i32)>,
    pts: Seq<(i32, i32)>,
) -> bool {
    &&& pts.len() == ds.len()
    &&& forall|j: int|
        0 <= j < pts.len() ==> pts[j] == spec_wrap_step(
            if j == 0 {
                start
            } else {
                pts[j - 1]
            },
            ds[j],
        )
}

/// Where the accumulator stands after a list of recorded points.
pub open spec fn spec_last_point(start: (i32, i32), pts: Seq<(i32, i32)>) -> (i32, i32) {
    if pts.len() == 0 {
        start
    } else {
        pts.last()
    }
}

/// The recorded points of one node, flattened: the end points, then the
/// control points in stream order.
pub open spec fn spec_node_points(nv: NodeVal) -> Seq<(i32, i32)> {
    match nv {
        NodeVal::Move(c, _) => c,
        NodeVal::Line(c, _) => c,
        NodeVal::Curve(c, c1, c2, _) => c + c1 + c2,
        NodeVal::QCurve(c, c1, _) => c + c1,
    }
}

/// The recorded points of a node list, flattened in stream order.
pub open spec fn spec_nodes_points(nodes: Seq<NodeVal>) -> Seq<(i32, i32)>
    decreases nodes.len(),
{
    if nodes.len() == 0 {
        Seq::empty()
    } else {
        spec_node_points(nodes[0]) + spec_nodes_points(nodes.skip(1))
    }
}

/// The raw delta pairs of one node, flattened: the same reads as
/// `spec_node`, kept un-accumulated.
pub open spec fn spec_node_raw(d: Seq<u8>, p: nat, layers: nat) -> Option<(Seq<(i32, i32)>, nat)> {
    match spec_read_u8(d, p) {
        Option::None => None,
        Option::Some((byte, p1)) => {
            let cmd = byte % 16;
            if cmd == 0 || cmd == 1 {
                spec_pair_run(d, p1, layers, Seq::empty())
            } else if cmd == 3 {
                match spec_pair_run(d, p1, layers, Seq::empty()) {
                    Option::None => None,
                    Option::Some((ds1, p2)) => match spec_pair_run(d, p2, layers, Seq::empty()) {
                        Option::None => None,
                        Option::Some((ds2, p3)) => match spec_pair_run(
                            d,
                            p3,
                            layers,
                            Seq::empty(),
                        ) {
                            Option::None => None,
                            Option::Some((ds3, p4)) => Some((ds1 + ds2 + ds3, p4)),
                        },
                    },
                }
            } else if cmd == 4 {
                match spec_pair_run(d, p1, layers, Seq::empty()) {
                    Option::None => None,
                    Option::Some((ds1, p2)) => match spec_pair_run(d, p2, layers, Seq::empty()) {
                        Option::None => None,
                        Option::Some((ds2, p3)) => Some((ds1 + ds2, p3)),
                    },
                }
            } else {
                None
            }
        },
    }
}

/// The raw delta pairs of `n` nodes, flattened in stream order.
pub open spec fn spec_nodes_raw(d: Seq<u8>, p: nat, layers: nat, n: nat) -> Option<
    (Seq<(i32, i32)>, nat),
>
    decreases n,
{
    if n == 0 {
        Some((Seq::empty(), p))
    } else {
        match spec_node_raw(d, p, layers) {
            Option::None => None,
            Option::Some((ds0, p1)) => match spec_nodes_raw(d, p1, layers, (n - 1) as nat) {
                Option::None => None,
                Option::Some((ds, q)) => Some((ds0 + ds, q)),
            },
        }
    }
}

/// The raw delta pairs of a whole outlines payload.
pub open spec fn spec_outline_deltas(d: Seq<u8>, p: nat) -> Option<(Seq<(i32, i32)>, nat)> {
    match spec_read_value(d, p) {
        Option::None => None,
        Option::Some((layers, p1)) => {
            if layers < 0 {
                None
            } else {
                match spec_read_value(d, p1) {
                    Option::None => None,
                    Option::Some((_skip, p2)) => match spec_read_value(d, p2) {
                        Option::None => None,
                        Option::Some((n, p3)) => {
                            if n < 0 {
                                None
                            } else {
                                spec_nodes_raw(d, p3, layers as nat, n as nat)
                            }
                        },
                    },
                }
            }
        },
    }
}

/// Shifting the accumulator out of a pair run: a run from any prefix is
/// the prefix followed by the run from the empty prefix.
pub proof fn lemma_pair_run_shift(d: Seq<u8>, p: nat, n: nat, acc: Seq<(i32, i32)>)
    ensures
        spec_pair_run(d, p, n, acc) is Some <==> spec_pair_run(d, p, n, Seq::empty()) is Some,
        spec_pair_run(d, p, n, acc) matches Some(r) ==> (spec_pair_run(d, p, n, Seq::empty())
            matches Some(r0) && r.0 == acc + r0.0 && r.1 == r0.1),
    decreases n,
{
    if n == 0 {
        assert(acc + Seq::<(i32, i32)>::empty() =~= acc);
    } else {
        match spec_value_pair(d, p) {
            Option::None => {},
            Option::Some((ab, p1)) => {
                lemma_pair_run_shift(d, p1, (n - 1) as nat, acc.push(ab));
                lemma_pair_run_shift(d, p1, (n - 1) as nat, seq![ab]);
                match spec_pair_run(d, p1, (n - 1) as nat, Seq::empty()) {
                    Option::None => {},
                    Option::Some(r0) => {
                        assert(acc.push(ab) + r0.0 =~= acc + (seq![ab] + r0.0));
                    },
                }
            },
        }
    }
}

/// Running sums compose: a second run that starts where the first ends
/// continues the same accumulator.
pub proof fn lemma_running_sums_concat(
    start: (i32, i32),
    ds1: Seq<(i32, i32)>,
    pts1: Seq<(i32, i32)>,
    ds2: Seq<(i32, i32)>,
    pts2: Seq<(i32, i32)>,
)
    requires
        spec_running_sums(start, ds1, pts1),
        spec_running_sums(spec_last_point(start, pts1), ds2, pts2),
    ensures
        spec_running_sums(start, ds1 + ds2, pts1 + pts2),
{
    let ds = ds1 + ds2;
    let pts = pts1 + pts2;
    assert forall|j: int| 0 <= j < pts.len() implies pts[j] == spec_wrap_step(
        if j == 0 {
            start
        } else {
            pts[j - 1]
        },
        ds[j],
    ) by {
        if j < pts1.len() {
            assert(pts[j] == pts1[j]);
            assert(ds[j] == ds1[j]);
            if j > 0 {
                assert(pts[j - 1] == pts1[j - 1]);
            }
        } else {
            let i = j - pts1.len();
            assert(pts[j] == pts2[i]);
            assert(ds[j] == ds2[i]);
            if i == 0 {
                if pts1.len() == 0 {
                    assert(spec_last_point(start, pts1) == start);
                } else {
                    assert(pts[j - 1] == pts1[pts1.len() - 1]);
                    assert(spec_last_point(start, pts1) == pts1.last());
                }
            } else {
                assert(pts[j - 1] == pts2[i - 1]);
            }
        }
    }
}


/// One delta list: the recorded points appended by `spec_points` are the
/// running sums of the raw pairs read by `spec_pair_run` over the same
/// bytes, and the accumulator ends at the last recorded point.
pub proof fn lemma_points_sums(d: Seq<u8>, p: nat, n: nat, cx: i32, cy: i32, acc: Seq<(i32, i32)>)
    ensures
        spec_points(d, p, n, cx, cy, acc) matches Some(r) ==> {
            let pts = r.0.0;
            &&& spec_pair_run(d, p, n, Seq::empty()) matches Some(r2) && r2.1 == r.1 && {
                let ds = r2.0;
                &&& acc.len() <= pts.len()
                &&& pts.take(acc.len() as int) == acc
                &&& spec_running_sums((cx, cy), ds, pts.skip(acc.len() as int))
                &&& (r.0.1, r.0.2) == spec_last_point((cx, cy), pts.skip(acc.len() as int))
            }
        },
    decreases n,
{
    if n == 0 {
        match spec_points(d, p, n, cx, cy, acc) {
            Option::None => {},
            Option::Some(r) => {
                assert(r.0.0.take(acc.len() as int) =~= acc);
                assert(r.0.0.skip(acc.len() as int) =~= Seq::<(i32, i32)>::empty());
            },
        }
    } else {
        match spec_value_pair(d, p) {
            Option::None => {},
            Option::Some((ab, p1)) => {
                let nx = vstd::wrapping::i32_specs::wrapping_add(cx, ab.0);
                let ny = vstd::wrapping::i32_specs::wrapping_add(cy, ab.1);
                lemma_points_sums(d, p1, (n - 1) as nat, nx, ny, acc.push((nx, ny)));
                lemma_pair_run_shift(d, p1, (n - 1) as nat, seq![ab]);
                match spec_points(d, p, n, cx, cy, acc) {
                    Option::None => {},
                    Option::Some(r) => {
                        let pts = r.0.0;
                        match spec_pair_run(d, p1, (n - 1) as nat, Seq::empty()) {
                            Option::None => {},
                            Option::Some(r0) => {
                                let ds_tail = r0.0;
                                let tail = pts.skip(acc.len() as int + 1);
                                assert(pts.take(acc.len() as int + 1) == acc.push((nx, ny)));
                                assert(pts.take(acc.len() as int + 1)[acc.len() as int] == (
                                nx, ny));
                                assert(pts[acc.len() as int] == (nx, ny));
                                assert(pts.take(acc.len() as int) =~= acc);
                                assert(pts.skip(acc.len() as int) =~= seq![(nx, ny)] + tail);
                                // The head point is one wrapping step from the start.
                                assert(spec_running_sums((cx, cy), seq![ab], seq![(nx, ny)]));
                                assert(spec_last_point((cx, cy), seq![(nx, ny)]) == (nx, ny));
                                lemma_running_sums_concat(
                                    (cx, cy),
                                    seq![ab],
                                    seq![(nx, ny)],
                                    ds_tail,
                                    tail,
                                );
                                if tail.len() == 0 {
                                    assert(spec_last_point((cx, cy), seq![(nx, ny)] + tail) == (
                                    nx, ny));
                                } else {
                                    assert((seq![(nx, ny)] + tail).last() == tail.last());
                                }
                            },
                        }
                    },
                }
            },
        }
    }
}


pub proof fn lemma_last_point_concat(start: (i32, i32), a: Seq<(i32, i32)>, b: Seq<(i32, i32)>)
    ensures
        spec_last_point(start, a + b) == spec_last_point(spec_last_point(start, a), b),
{
    if b.len() == 0 {
        assert(a + b =~= a);
    } else {
        assert((a + b).last() == b.last());
    }
}

/// One node: its flattened recorded points are the running sums of its
/// flattened raw deltas, and the accumulator ends at its last point.
pub proof fn lemma_node_sums(d: Seq<u8>, p: nat, layers: nat, cx: i32, cy: i32)
    ensures
        spec_node(d, p, layers, cx, cy) matches Some(r) ==> {
            &&& spec_node_raw(d, p, layers) matches Some(r2) && r2.1 == r.1 && {
                let ds = r2.0;
                let pts = spec_node_points(r.0.0);
                &&& spec_running_sums((cx, cy), ds, pts)
                &&& (r.0.1, r.0.2) == spec_last_point((cx, cy), pts)
            }
        },
{
    if spec_node(d, p, layers, cx, cy) is Some {
        let (byte, p1) = spec_read_u8(d, p)->Some_0;
        let cmd = byte % 16;
        if cmd == 0 || cmd == 1 {
            lemma_points_sums(d, p1, layers, cx, cy, Seq::empty());
            let r = spec_points(d, p1, layers, cx, cy, Seq::empty())->Some_0;
            assert(r.0.0.skip(0) =~= r.0.0);
        } else if cmd == 3 {
            lemma_points_sums(d, p1, layers, cx, cy, Seq::empty());
            let ra = spec_points(d, p1, layers, cx, cy, Seq::empty())->Some_0;
            let (c, x1, y1) = ra.0;
            let p2 = ra.1;
            assert(c.skip(0) =~= c);
            lemma_points_sums(d, p2, layers, x1, y1, Seq::empty());
            let rb = spec_points(d, p2, layers, x1, y1, Seq::empty())->Some_0;
            let (c1, x2, y2) = rb.0;
            let p3 = rb.1;
            assert(c1.skip(0) =~= c1);
            lemma_points_sums(d, p3, layers, x2, y2, Seq::empty());
            let rc = spec_points(d, p3, layers, x2, y2, Seq::empty())->Some_0;
            let (c2, x3, y3) = rc.0;
            assert(c2.skip(0) =~= c2);
            let ds1 = spec_pair_run(d, p1, layers, Seq::empty())->Some_0.0;
            let ds2 = spec_pair_run(d, p2, layers, Seq::empty())->Some_0.0;
            let ds3 = spec_pair_run(d, p3, layers, Seq::empty())->Some_0.0;
            lemma_running_sums_concat((cx, cy), ds1, c, ds2, c1);
            lemma_last_point_concat((cx, cy), c, c1);
            lemma_running_sums_concat((cx, cy), ds1 + ds2, c + c1, ds3, c2);
            lemma_last_point_concat((cx, cy), c + c1, c2);
        } else if cmd == 4 {
            lemma_points_sums(d, p1, layers, cx, cy, Seq::empty());
            let ra = spec_points(d, p1, layers, cx, cy, Seq::empty())->Some_0;
            let (c, x1, y1) = ra.0;
            let p2 = ra.1;
            assert(c.skip(0) =~= c);
            lemma_points_sums(d, p2, layers, x1, y1, Seq::empty());
            let rb = spec_points(d, p2, layers, x1, y1, Seq::empty())->Some_0;
            let (c1, x2, y2) = rb.0;
            assert(c1.skip(0) =~= c1);
            let ds1 = spec_pair_run(d, p1, layers, Seq::empty())->Some_0.0;
            let ds2 = spec_pair_run(d, p2, layers, Seq::empty())->Some_0.0;
            lemma_running_sums_concat((cx, cy), ds1, c, ds2, c1);
            lemma_last_point_concat((cx, cy), c, c1);
        }
    }
}

/// Splitting a node list at a known prefix: the flattened points of the
/// tail factor through its first node.
proof fn lemma_nodes_split(nodes: Seq<NodeVal>, acc: Seq<NodeVal>, nv: NodeVal)
    requires
        acc.len() + 1 <= nodes.len(),
        nodes.take(acc.len() as int + 1) == acc.push(nv),
    ensures
        nodes.take(acc.len() as int) == acc,
        spec_nodes_points(nodes.skip(acc.len() as int)) == spec_node_points(nv)
            + spec_nodes_points(nodes.skip(acc.len() as int + 1)),
{
    assert(nodes.take(acc.len() as int + 1)[acc.len() as int] == nv);
    assert(nodes[acc.len() as int] == nv);
    assert(nodes.take(acc.len() as int) =~= acc);
    let head = nodes.skip(acc.len() as int);
    assert(head.len() > 0);
    assert(head[0] == nv);
    assert(head.skip(1) =~= nodes.skip(acc.len() as int + 1));
    assert(spec_nodes_points(head) == spec_node_points(head[0]) + spec_nodes_points(head.skip(1)));
}

/// A node run: the flattened recorded points of the nodes appended after
/// the prefix are the running sums of the flattened raw deltas.
#[verifier::rlimit(100)]
pub proof fn lemma_nodes_sums(
    d: Seq<u8>,
    p: nat,
    layers: nat,
    n: nat,
    cx: i32,
    cy: i32,
    acc: Seq<NodeVal>,
)
    ensures
        spec_nodes(d, p, layers, n, cx, cy, acc) matches Some(r) ==> {
            let nodes = r.0;
            &&& spec_nodes_raw(d, p, layers, n) matches Some(r2) && r2.1 == r.1 && {
                let ds = r2.0;
                &&& acc.len() <= nodes.len()
                &&& nodes.take(acc.len() as int) == acc
                &&& spec_running_sums(
                    (cx, cy),
                    ds,
                    spec_nodes_points(nodes.skip(acc.len() as int)),
                )
            }
        },
    decreases n,
{
    if n == 0 {
        match spec_nodes(d, p, layers, n, cx, cy, acc) {
            Option::None => {},
            Option::Some(r) => {
                assert(r.0.take(acc.len() as int) =~= acc);
                assert(r.0.skip(acc.len() as int) =~= Seq::<NodeVal>::empty());
            },
        }
    } else {
        match spec_node(d, p, layers, cx, cy) {
            Option::None => {},
            Option::Some(rn) => {
                let (nv, x1, y1) = rn.0;
                let p1 = rn.1;
                lemma_node_sums(d, p, layers, cx, cy);
                lemma_nodes_sums(d, p1, layers, (n - 1) as nat, x1, y1, acc.push(nv));
                match spec_nodes(d, p, layers, n, cx, cy, acc) {
                    Option::None => {},
                    Option::Some(r) => {
                        match spec_nodes_raw(d, p1, layers, (n - 1) as nat) {
                            Option::None => {},
                            Option::Some(rr) => {
                                let nodes = r.0;
                                let ds0 = spec_node_raw(d, p, layers)->Some_0.0;
                                lemma_nodes_split(nodes, acc, nv);
                                lemma_running_sums_concat(
                                    (cx, cy),
                                    ds0,
                                    spec_node_points(nv),
                                    rr.0,
                                    spec_nodes_points(nodes.skip(acc.len() as int + 1)),
                                );
                            },
                        }
                    },
                }
            },
        }
    }
}

/// The outline law in full: the recorded points of a decoded outline,
/// flattened across every node and every control-point list in stream
/// order, are the running wrapping sums of the raw delta pairs read from
/// the stream, starting at (0, 0). The accumulator is never reset between
/// nodes, layers or control-point lists.
pub proof fn lemma_outlines_prefix_sums(d: Seq<u8>, p: nat)
    ensures
        spec_read_outlines(d, p) matches Some(r) ==> (spec_outline_deltas(d, p) matches Some(r2)
            && r2.1 == r.1 && spec_running_sums((0i32, 0i32), r2.0, spec_nodes_points(r.0))),
{
    if spec_read_outlines(d, p) is Some {
        let (layers, p1) = spec_read_value(d, p)->Some_0;
        let (_skip, p2) = spec_read_value(d, p1)->Some_0;
        let (n, p3) = spec_read_value(d, p2)->Some_0;
        lemma_nodes_sums(d, p3, layers as nat, n as nat, 0, 0, Seq::empty());
        let r = spec_nodes(d, p3, layers as nat, n as nat, 0, 0, Seq::empty())->Some_0;
        assert(r.0.skip(0) =~= r.0);
    }
}

// ---------------------------------------------------------------------------
// Component decoding.
// ---------------------------------------------------------------------------

/// `n` per-master component records appended to the four column
/// accumulators: an (x, y) offset pair of encoded values, then the two
/// scale doubles as raw bits.
pub open spec fn spec_comp_masters(
    d: Seq<u8>,
    p: nat,
    n: nat,
    acc: (Seq<i32>, Seq<i32>, Seq<u64>, Seq<u64>),
) -> Option<((Seq<i32>, Seq<i32>, Seq<u64>, Seq<u64>), nat)>
    decreases n,
{
    if n == 0 {
        Some((acc, p))
    } else {
        match spec_value_pair(d, p) {
            Option::None => None,
            Option::Some(((xo, yo), p1)) => match spec_read_u64(d, p1) {
                Option::None => None,
                Option::Some((xs, p2)) => match spec_read_u64(d, p2) {
                    Option::None => None,
                    Option::Some((ys, p3)) => spec_comp_masters(
                        d,
                        p3,
                        (n - 1) as nat,
                        (acc.0.push(xo), acc.1.push(yo), acc.2.push(xs), acc.3.push(ys)),
                    ),
                },
            },
        }
    }
}

/// One component: its glyph index, then its per-master records.
pub open spec fn spec_component(d: Seq<u8>, p: nat, m: nat) -> Option<(ComponentVal, nat)> {
    match spec_read_value(d, p) {
        Option::None => None,
        Option::Some((gid, p1)) => match spec_comp_masters(
            d,
            p1,
            m,
            (Seq::empty(), Seq::empty(), Seq::empty(), Seq::empty()),
        ) {
            Option::None => None,
            Option::Some((cols, p2)) => Some(
                (
                    ComponentVal {
                        glyph_index: gid as u32,
                        x_offset: cols.0,
                        y_offset: cols.1,
                        x_scale_bits: cols.2,
                        y_scale_bits: cols.3,
                    },
                    p2,
                ),
            ),
        },
    }
}

/// `n` components appended to `acc`.
pub open spec fn spec_components_run(
    d: Seq<u8>,
    p: nat,
    n: nat,
    m: nat,
    acc: Seq<ComponentVal>,
) -> Option<(Seq<ComponentVal>, nat)>
    decreases n,
{
    if n == 0 {
        Some((acc, p))
    } else {
        match spec_component(d, p, m) {
            Option::None => None,
            Option::Some((c, p1)) => spec_components_run(d, p1, (n - 1) as nat, m, acc.push(c)),
        }
    }
}

/// The components payload: a count, then that many components. A negative
/// count yields no components, as an empty counted range does.
pub open spec fn spec_read_components(d: Seq<u8>, p: nat, m: nat) -> Option<
    (Seq<ComponentVal>, nat),
> {
    match spec_read_value(d, p) {
        Option::None => None,
        Option::Some((n, p1)) => {
            let count: nat = if n < 0 {
                0
            } else {
                n as nat
            };
            spec_components_run(d, p1, count, m, Seq::empty())
        },
    }
}

// ---------------------------------------------------------------------------
// Kerning decoding.
// ---------------------------------------------------------------------------

/// `n` kerning pairs folded into `acc`: a right-glyph id, then one kern
/// value per master. A repeated right-glyph id overrides the earlier one.
pub open spec fn spec_kern_run(d: Seq<u8>, p: nat, n: nat, m: nat, acc: Map<i32, Seq<i32>>)
    -> Option<(Map<i32, Seq<i32>>, nat)>
    decreases n,
{
    if n == 0 {
        Some((acc, p))
    } else {
        match spec_read_value(d, p) {
            Option::None => None,
            Option::Some((rg, p1)) => match spec_value_run(d, p1, m, Seq::empty()) {
                Option::None => None,
                Option::Some((vals, p2)) => spec_kern_run(
                    d,
                    p2,
                    (n - 1) as nat,
                    m,
                    acc.insert(rg, vals),
                ),
            },
        }
    }
}

/// The kerning payload: a pair count, then that many pairs. A negative
/// count yields an empty table.
pub open spec fn spec_read_kerning(d: Seq<u8>, p: nat, m: nat) -> Option<(Map<i32, Seq<i32>>, nat)> {
    match spec_read_value(d, p) {
        Option::None => None,
        Option::Some((n, p1)) => {
            let count: nat = if n < 0 {
                0
            } else {
                n as nat
            };
            spec_kern_run(d, p1, count, m, Map::empty())
        },
    }
}

// ---------------------------------------------------------------------------
// Anchor decoding.
// ---------------------------------------------------------------------------

/// The anchors payload: an anchor count and a master count, both from the
/// stream, then one (x, y) pair per anchor and master. Negative counts
/// yield empty ranges.
pub open spec fn spec_read_anchors(d: Seq<u8>, p: nat) -> Option<(Seq<Seq<(i32, i32)>>, nat)> {
    match spec_read_value(d, p) {
        Option::None => None,
        Option::Some((na, p1)) => match spec_read_value(d, p1) {
            Option::None => None,
            Option::Some((nm, p2)) => {
                let rows: nat = if na < 0 {
                    0
                } else {
                    na as nat
                };
                let m: nat = if nm < 0 {
                    0
                } else {
                    nm as nat
                };
                spec_pair_rows(d, p2, rows, m, Seq::empty())
            },
        },
    }
}

/// The supplemental anchors payload: a count, then one (hue, reserved)
/// pair per anchor. A negative count yields an empty range.
pub open spec fn spec_read_anchors_supplemental(d: Seq<u8>, p: nat) -> Option<
    (Seq<(i32, i32)>, nat),
> {
    match spec_read_value(d, p) {
        Option::None => None,
        Option::Some((n, p1)) => {
            let count: nat = if n < 0 {
                0
            } else {
                n as nat
            };
            spec_pair_run(d, p1, count, Seq::empty())
        },
    }
}

// ---------------------------------------------------------------------------
// Bounds lemmas: every successful parse ends at or after its start and
// within the bytes.
// ---------------------------------------------------------------------------

pub proof fn lemma_hint_masks_bounds(d: Seq<u8>, p: nat, n: nat, acc: Seq<HintMask>)
    requires
        p <= d.len(),
    ensures
        spec_hint_masks(d, p, n, acc) matches Some(r) ==> p <= r.1 <= d.len(),
    decreases n,
{
    if n > 0 && spec_hint_masks(d, p, n, acc) is Some {
        let (k, p1) = spec_read_u8(d, p)->Some_0;
        if k == 1 || k == 2 || k == 0xff {
            let (v, p2) = spec_read_value(d, p1)->Some_0;
            let nacc = if k == 1 {
                acc.push(HintMask::Horizontal(v))
            } else if k == 2 {
                acc.push(HintMask::Vertical(v))
            } else {
                acc.push(HintMask::ReplacementPoint(v))
            };
            lemma_hint_masks_bounds(d, p2, (n - 1) as nat, nacc);
        } else {
            lemma_hint_masks_bounds(d, p1, (n - 1) as nat, acc);
        }
    }
}

pub proof fn lemma_hints_bounds(d: Seq<u8>, p: nat, m: nat)
    requires
        p <= d.len(),
    ensures
        spec_read_hints(d, p, m) matches Some(r) ==> p <= r.1 <= d.len(),
{
    if spec_read_hints(d, p, m) is Some {
        let (hc, p1) = spec_read_value(d, p)->Some_0;
        lemma_pair_rows_bounds(d, p1, hc as nat, m, Seq::empty());
        let (hrows, p2) = spec_pair_rows(d, p1, hc as nat, m, Seq::empty())->Some_0;
        let (vc, p3) = spec_read_value(d, p2)->Some_0;
        lemma_pair_rows_bounds(d, p3, vc as nat, m, Seq::empty());
        let (vrows, p4) = spec_pair_rows(d, p3, vc as nat, m, Seq::empty())->Some_0;
        let (mc, p5) = spec_read_value(d, p4)->Some_0;
        lemma_hint_masks_bounds(d, p5, mc as nat, Seq::empty());
    }
}

pub proof fn lemma_guides_bounds(d: Seq<u8>, p: nat, m: nat)
    requires
        p <= d.len(),
    ensures
        spec_read_guides(d, p, m) matches Some(r) ==> p <= r.1 <= d.len(),
{
    if spec_read_guides(d, p, m) is Some {
        let (hc, p1) = spec_read_value(d, p)->Some_0;
        lemma_pair_rows_bounds(d, p1, hc as nat, m, Seq::empty());
        let (hrows, p2) = spec_pair_rows(d, p1, hc as nat, m, Seq::empty())->Some_0;
        let (vc, p3) = spec_read_value(d, p2)->Some_0;
        lemma_pair_rows_bounds(d, p3, vc as nat, m, Seq::empty());
    }
}

pub proof fn lemma_points_bounds(
    d: Seq<u8>,
    p: nat,
    n: nat,
    cx: i32,
    cy: i32,
    acc: Seq<(i32, i32)>,
)
    requires
        p <= d.len(),
    ensures
        spec_points(d, p, n, cx, cy, acc) matches Some(r) ==> p <= r.1 <= d.len(),
    decreases n,
{
    if n > 0 && spec_points(d, p, n, cx, cy, acc) is Some {
        let ((dx, dy), p1) = spec_value_pair(d, p)->Some_0;
        let nx = vstd::wrapping::i32_specs::wrapping_add(cx, dx);
        let ny = vstd::wrapping::i32_specs::wrapping_add(cy, dy);
        lemma_points_bounds(d, p1, (n - 1) as nat, nx, ny, acc.push((nx, ny)));
    }
}

pub proof fn lemma_node_bounds(d: Seq<u8>, p: nat, layers: nat, cx: i32, cy: i32)
    requires
        p <= d.len(),
    ensures
        spec_node(d, p, layers, cx, cy) matches Some(r) ==> p <= r.1 <= d.len(),
{
    if spec_node(d, p, layers, cx, cy) is Some {
        let (byte, p1) = spec_read_u8(d, p)->Some_0;
        let cmd = byte % 16;
        if cmd == 0 || cmd == 1 {
            lemma_points_bounds(d, p1, layers, cx, cy, Seq::empty());
        } else if cmd == 3 {
            lemma_points_bounds(d, p1, layers, cx, cy, Seq::empty());
            let ((pts, x1, y1), p2) = spec_points(d, p1, layers, cx, cy, Seq::empty())->Some_0;
            lemma_points_bounds(d, p2, layers, x1, y1, Seq::empty());
            let ((c1, x2, y2), p3) = spec_points(d, p2, layers, x1, y1, Seq::empty())->Some_0;
            lemma_points_bounds(d, p3, layers, x2, y2, Seq::empty());
        } else if cmd == 4 {
            lemma_points_bounds(d, p1, layers, cx, cy, Seq::empty());
            let ((pts, x1, y1), p2) = spec_points(d, p1, layers, cx, cy, Seq::empty())->Some_0;
            lemma_points_bounds(d, p2, layers, x1, y1, Seq::empty());
        }
    }
}

pub proof fn lemma_nodes_bounds(
    d: Seq<u8>,
    p: nat,
    layers: nat,
    n: nat,
    cx: i32,
    cy: i32,
    acc: Seq<NodeVal>,
)
    requires
        p <= d.len(),
    ensures
        spec_nodes(d, p, layers, n, cx, cy, acc) matches Some(r) ==> p <= r.1 <= d.len(),
    decreases n,
{
    if n > 0 && spec_nodes(d, p, layers, n, cx, cy, acc) is Some {
        lemma_node_bounds(d, p, layers, cx, cy);
        let ((nd, x1, y1), p1) = spec_node(d, p, layers, cx, cy)->Some_0;
        lemma_nodes_bounds(d, p1, layers, (n - 1) as nat, x1, y1, acc.push(nd));
    }
}

pub proof fn lemma_outlines_bounds(d: Seq<u8>, p: nat)
    requires
        p <= d.len(),
    ensures
        spec_read_outlines(d, p) matches Some(r) ==> p <= r.1 <= d.len(),
{
    if spec_read_outlines(d, p) is Some {
        let (layers, p1) = spec_read_value(d, p)->Some_0;
        let (_skip, p2) = spec_read_value(d, p1)->Some_0;
        let (n, p3) = spec_read_value(d, p2)->Some_0;
        lemma_nodes_bounds(d, p3, layers as nat, n as nat, 0, 0, Seq::empty());
    }
}

pub proof fn lemma_comp_masters_bounds(
    d: Seq<u8>,
    p: nat,
    n: nat,
    acc: (Seq<i32>, Seq<i32>, Seq<u64>, Seq<u64>),
)
    requires
        p <= d.len(),
    ensures
        spec_comp_masters(d, p, n, acc) matches Some(r) ==> p <= r.1 <= d.len(),
    decreases n,
{
    if n > 0 && spec_comp_masters(d, p, n, acc) is Some {
        let ((xo, yo), p1) = spec_value_pair(d, p)->Some_0;
        let (xs, p2) = spec_read_u64(d, p1)->Some_0;
        let (ys, p3) = spec_read_u64(d, p2)->Some_0;
        lemma_comp_masters_bounds(
            d,
            p3,
            (n - 1) as nat,
            (acc.0.push(xo), acc.1.push(yo), acc.2.push(xs), acc.3.push(ys)),
        );
    }
}

pub proof fn lemma_components_bounds(d: Seq<u8>, p: nat, n: nat, m: nat, acc: Seq<ComponentVal>)
    requires
        p <= d.len(),
    ensures
        spec_components_run(d, p, n, m, acc) matches Some(r) ==> p <= r.1 <= d.len(),
    decreases n,
{
    if n > 0 && spec_components_run(d, p, n, m, acc) is Some {
        let (gid, p1) = spec_read_value(d, p)->Some_0;
        lemma_comp_masters_bounds(
            d,
            p1,
            m,
            (Seq::empty(), Seq::empty(), Seq::empty(), Seq::empty()),
        );
        let (c, pc) = spec_component(d, p, m)->Some_0;
        lemma_components_bounds(d, pc, (n - 1) as nat, m, acc.push(c));
    }
}

pub proof fn lemma_kern_bounds(d: Seq<u8>, p: nat, n: nat, m: nat, acc: Map<i32, Seq<i32>>)
    requires
        p <= d.len(),
    ensures
        spec_kern_run(d, p, n, m, acc) matches Some(r) ==> p <= r.1 <= d.len(),
    decreases n,
{
    if n > 0 && spec_kern_run(d, p, n, m, acc) is Some {
        let (rg, p1) = spec_read_value(d, p)->Some_0;
        lemma_value_run_bounds(d, p1, m, Seq::empty());
        let (vals, p2) = spec_value_run(d, p1, m, Seq::empty())->Some_0;
        lemma_kern_bounds(d, p2, (n - 1) as nat, m, acc.insert(rg, vals));
    }
}

// ---------------------------------------------------------------------------
// The glyph sub-entry dispatcher.
// ---------------------------------------------------------------------------

/// One glyph sub-entry, dispatched on its one-byte sub-key: 1 glyph name,
/// 2 metrics, 3 hints, 4 guides, 5 components, 6 kerning, 8 outlines,
/// 9 opaque binary, 10 TrueType instructions. An unknown sub-key consumes
/// nothing and yields no entry.
pub open spec fn spec_glyph_sub(d: Seq<u8>, p: nat, m: nat, k: u16) -> Option<
    (Option<GlyphEntryVal>, nat),
> {
    if k == 1 {
        match spec_read_str_with_len(d, p) {
            Option::None => None,
            Option::Some((s, q)) => Some((Some(GlyphEntryVal::GlyphName(s)), q)),
        }
    } else if k == 2 {
        match spec_pair_run(d, p, m, Seq::empty()) {
            Option::None => None,
            Option::Some((v, q)) => Some((Some(GlyphEntryVal::Metrics(v)), q)),
        }
    } else if k == 3 {
        match spec_read_hints(d, p, m) {
            Option::None => None,
            Option::Some((h, q)) => Some((Some(GlyphEntryVal::Hints(h)), q)),
        }
    } else if k == 4 {
        match spec_read_guides(d, p, m) {
            Option::None => None,
            Option::Some((g, q)) => Some((Some(GlyphEntryVal::Guides(g)), q)),
        }
    } else if k == 5 {
        match spec_read_components(d, p, m) {
            Option::None => None,
            Option::Some((c, q)) => Some((Some(GlyphEntryVal::Components(c)), q)),
        }
    } else if k == 6 {
        match spec_read_kerning(d, p, m) {
            Option::None => None,
            Option::Some((t, q)) => Some((Some(GlyphEntryVal::Kerning(t)), q)),
        }
    } else if k == 8 {
        match spec_read_outlines(d, p) {
            Option::None => None,
            Option::Some((nodes, q)) => Some((Some(GlyphEntryVal::Outlines(nodes)), q)),
        }
    } else if k == 9 {
        match spec_read_bytes(d, p, spec_remainder_len(d, p)) {
            Option::None => None,
            Option::Some((b, q)) => Some((Some(GlyphEntryVal::Binary(b)), q)),
        }
    } else if k == 10 {
        match spec_read_bytes(d, p, spec_remainder_len(d, p)) {
            Option::None => None,
            Option::Some((b, q)) => Some((Some(GlyphEntryVal::Instructions(b)), q)),
        }
    } else {
        Some((None, p))
    }
}

pub proof fn lemma_glyph_sub_bounds(d: Seq<u8>, p: nat, m: nat, k: u16)
    requires
        p <= d.len(),
    ensures
        spec_glyph_sub(d, p, m, k) matches Some(r) ==> p <= r.1 <= d.len(),
{
    if spec_glyph_sub(d, p, m, k) is Some {
        if k == 2 {
            lemma_pair_run_bounds(d, p, m, Seq::empty());
        } else if k == 3 {
            lemma_hints_bounds(d, p, m);
        } else if k == 4 {
            lemma_guides_bounds(d, p, m);
        } else if k == 5 {
            if spec_read_components(d, p, m) is Some {
                let (n, p1) = spec_read_value(d, p)->Some_0;
                let count: nat = if n < 0 {
                    0
                } else {
                    n as nat
                };
                lemma_components_bounds(d, p1, count, m, Seq::empty());
            }
        } else if k == 6 {
            if spec_read_kerning(d, p, m) is Some {
                let (n, p1) = spec_read_value(d, p)->Some_0;
                let count: nat = if n < 0 {
                    0
                } else {
                    n as nat
                };
                lemma_kern_bounds(d, p1, count, m, Map::empty());
            }
        } else if k == 8 {
            lemma_outlines_bounds(d, p);
        }
    }
}

/// The glyph sub-entry stream: one-byte sub-keys dispatch their payloads;
/// sub-key 0x0F ends the glyph.
pub open spec fn spec_glyph_entries(d: Seq<u8>, p: nat, m: nat, acc: Seq<GlyphEntryVal>) -> Option<
    (Seq<GlyphEntryVal>, nat),
>
    decreases d.len() - p,
    via spec_glyph_entries_dec
{
    match spec_read_u8(d, p) {
        Option::None => None,
        Option::Some((k, p1)) => {
            if k == 0x0f {
                Some((acc, p1))
            } else {
                match spec_glyph_sub(d, p1, m, k as u16) {
                    Option::None => None,
                    Option::Some((o, q)) => {
                        match o {
                            Option::None => spec_glyph_entries(d, q, m, acc),
                            Option::Some(ev) => spec_glyph_entries(d, q, m, acc.push(ev)),
                        }
                    },
                }
            }
        },
    }
}

#[via_fn]
proof fn spec_glyph_entries_dec(d: Seq<u8>, p: nat, m: nat, acc: Seq<GlyphEntryVal>) {
    if p < d.len() {
        let (k, p1) = spec_read_u8(d, p)->Some_0;
        lemma_glyph_sub_bounds(d, p1, m, k as u16);
    }
}

/// The glyph payload: the four-byte preamble 01 09 07 01, then the
/// sub-entry stream up to its 0x0F terminator.
pub open spec fn spec_read_glyph(d: Seq<u8>, p: nat, m: nat) -> Option<(Seq<GlyphEntryVal>, nat)> {
    match spec_read_bytes(d, p, 4) {
        Option::None => None,
        Option::Some((hdr, p1)) => {
            if hdr[0] == 1 && hdr[1] == 9 && hdr[2] == 7 && hdr[3] == 1 {
                spec_glyph_entries(d, p1, m, Seq::empty())
            } else {
                None
            }
        },
    }
}


// ---------------------------------------------------------------------------
// Executable decoders.
// ---------------------------------------------------------------------------

/// The sub-key of each hint-mask record.
pub open spec fn spec_hint_mask_sub(d: Seq<u8>, p: nat, k: u16) -> Option<
    (Option<HintMask>, nat),
> {
    if k == 1 {
        match spec_read_value(d, p) {
            Option::None => None,
            Option::Some((v, q)) => Some((Some(HintMask::Horizontal(v)), q)),
        }
    } else if k == 2 {
        match spec_read_value(d, p) {
            Option::None => None,
            Option::Some((v, q)) => Some((Some(HintMask::Vertical(v)), q)),
        }
    } else if k == 0xff {
        match spec_read_value(d, p) {
            Option::None => None,
            Option::Some((v, q)) => Some((Some(HintMask::ReplacementPoint(v)), q)),
        }
    } else {
        Some((None, p))
    }
}

impl HintMask {
    /// Read the hint mask selected by the given sub-key; an unknown
    /// sub-key consumes nothing and yields no mask.
    pub fn new_from_reader(key: u16, r: &mut EntryReader) -> (res: Result<
        Option<HintMask>,
        VfbError,
    >)
        requires
            old(r).wf(),
        ensures
            final(r).wf(),
            final(r).same_stream(old(r)),
            res is Ok <==> spec_hint_mask_sub(old(r).bytes(), old(r).posn(), key) is Some,
            res matches Ok(o) ==> spec_hint_mask_sub(old(r).bytes(), old(r).posn(), key) == Some(
                (o, final(r).posn()),
            ),
            res is Err ==> (res matches Err(e) && (e is ReadError || e is BadValue)),
    {
        if key == 1 {
            match r.read_value() {
                Ok(v) => Ok(Some(HintMask::Horizontal(v))),
                Err(e) => Err(e),
            }
        } else if key == 2 {
            match r.read_value() {
                Ok(v) => Ok(Some(HintMask::Vertical(v))),
                Err(e) => Err(e),
            }
        } else if key == 0xff {
            match r.read_value() {
                Ok(v) => Ok(Some(HintMask::ReplacementPoint(v))),
                Err(e) => Err(e),
            }
        } else {
            Ok(None)
        }
    }
}

/// Turn a row of decoded (position, width) pairs into hints.
fn hint_row_from_pairs(pairs: Vec<(i32, i32)>) -> (out: Vec<Hint>)
    ensures
        out@.map_values(|h: Hint| h@) == pairs@,
{
    let mut out: Vec<Hint> = Vec::new();
    let mut i: usize = 0;
    while i < pairs.len()
        invariant
            i <= pairs.len(),
            out@.len() == i,
            forall|j: int| 0 <= j < i ==> out@[j]@ == pairs@[j],
        decreases pairs.len() - i,
    {
        let (position, width) = pairs[i];
        out.push(Hint { position, width });
        i = i + 1;
    }
    proof {
        assert(out@.map_values(|h: Hint| h@) =~= pairs@);
    }
    out
}

/// The glyph sub-entry list as values.
pub open spec fn spec_glyph_entries_view(es: Seq<GlyphEntry>) -> Seq<GlyphEntryVal> {
    es.map_values(|e: GlyphEntry| e@)
}

impl EntryReader {
    /// Read one block of hint rows: a count, then that many rows of one
    /// (position, width) pair per master.
    #[verifier::loop_isolation(false)]
    fn read_hint_block(&mut self) -> (r: Result<Vec<Vec<Hint>>, VfbError>)
        requires
            old(self).wf(),
        ensures
            final(self).wf(),
            final(self).same_stream(old(self)),
            r is Ok <==> (spec_read_value(old(self).bytes(), old(self).posn()) matches Some(
                (c, p1),
            ) && c >= 0 && spec_pair_rows(
                old(self).bytes(),
                p1,
                c as nat,
                old(self).masters(),
                Seq::empty(),
            ) is Some),
            r matches Ok(rows) ==> (spec_read_value(old(self).bytes(), old(self).posn())
                matches Some((c, p1)) && c >= 0 && spec_pair_rows(
                old(self).bytes(),
                p1,
                c as nat,
                old(self).masters(),
                Seq::empty(),
            ) == Some((spec_hint_rows_view(rows@), final(self).posn()))),
            r is Err ==> (r matches Err(e) && (e is ReadError || e is BadValue)),
    {
        let ghost d = self.bytes();
        let count = match self.read_value() {
            Ok(v) => v,
            Err(e) => { return Err(e) },
        };
        if count < 0 {
            return Err(VfbError::ReadError);
        }
        let ghost p1 = self.posn();
        let n = count as usize;
        let m = self.number_of_masters();
        let mut rows: Vec<Vec<Hint>> = Vec::new();
        proof {
            assert(spec_hint_rows_view(rows@) =~= Seq::<Seq<(i32, i32)>>::empty());
        }
        let mut i: usize = 0;
        while i < n
            invariant
                i <= n,
                self.wf(),
                self.same_stream(old(self)),
                spec_pair_rows(d, p1, n as nat, m as nat, Seq::empty()) == spec_pair_rows(
                    d,
                    self.posn(),
                    (n - i) as nat,
                    m as nat,
                    spec_hint_rows_view(rows@),
                ),
            decreases n - i,
        {
            let pairs = match self.read_value_pairs(m) {
                Ok(v) => v,
                Err(e) => { return Err(e) },
            };
            let row = hint_row_from_pairs(pairs);
            proof {
                assert(spec_hint_rows_view(rows@.push(row)) =~= spec_hint_rows_view(rows@).push(
                    row@.map_values(|h: Hint| h@),
                ));
            }
            rows.push(row);
            i = i + 1;
        }
        Ok(rows)
    }

    /// Read the hints payload: horizontal hint rows, vertical hint rows,
    /// then the hint masks.
    #[verifier::loop_isolation(false)]
    pub fn read_hints(&mut self) -> (r: Result<Hints, VfbError>)
        requires
            old(self).wf(),
        ensures
            final(self).wf(),
            final(self).same_stream(old(self)),
            r is Ok <==> spec_read_hints(old(self).bytes(), old(self).posn(), old(self).masters())
                is Some,
            r matches Ok(h) ==> spec_read_hints(
                old(self).bytes(),
                old(self).posn(),
                old(self).masters(),
            ) == Some((h@, final(self).posn())),
            r is Err ==> (r matches Err(e) && (e is ReadError || e is BadValue)),
    {
        let ghost d = self.bytes();
        let horizontal = match self.read_hint_block() {
            Ok(v) => v,
            Err(e) => { return Err(e) },
        };
        let vertical = match self.read_hint_block() {
            Ok(v) => v,
            Err(e) => { return Err(e) },
        };
        let mask_count = match self.read_value() {
            Ok(v) => v,
            Err(e) => { return Err(e) },
        };
        if mask_count < 0 {
            return Err(VfbError::ReadError);
        }
        let ghost pm = self.posn();
        let n = mask_count as usize;
        let mut masks: Vec<HintMask> = Vec::new();
        let mut i: usize = 0;
        while i < n
            invariant
                i <= n,
                self.wf(),
                self.same_stream(old(self)),
                spec_hint_masks(d, pm, n as nat, Seq::empty()) == spec_hint_masks(
                    d,
                    self.posn(),
                    (n - i) as nat,
                    masks@,
                ),
            decreases n - i,
        {
            let raw_key = match self.read_u8() {
                Ok(v) => v,
                Err(e) => { return Err(e) },
            };
            let mask = match HintMask::new_from_reader(raw_key as u16, self) {
                Ok(o) => o,
                Err(e) => { return Err(e) },
            };
            if let Some(mk) = mask {
                masks.push(mk);
            }
            i = i + 1;
        }
        Ok(Hints { horizontal, vertical, masks })
    }

    /// Read the glyph metrics: one (left side bearing, advance width) pair
    /// per master.
    pub fn read_glyph_metrics(&mut self) -> (r: Result<Vec<(i32, i32)>, VfbError>)
        requires
            old(self).wf(),
        ensures
            final(self).wf(),
            final(self).same_stream(old(self)),
            r is Ok <==> spec_pair_run(
                old(self).bytes(),
                old(self).posn(),
                old(self).masters(),
                Seq::empty(),
            ) is Some,
            r matches Ok(v) ==> spec_pair_run(
                old(self).bytes(),
                old(self).posn(),
                old(self).masters(),
                Seq::empty(),
            ) == Some((v@, final(self).posn())),
            r is Err ==> (r matches Err(e) && (e is ReadError || e is BadValue)),
    {
        let m = self.number_of_masters();
        self.read_value_pairs(m)
    }

    /// Read the components payload: a count, then per component a glyph
    /// index and per master an offset pair and two scale doubles kept as
    /// raw bits.
    #[verifier::loop_isolation(false)]
    pub fn read_components(&mut self) -> (r: Result<Vec<Component>, VfbError>)
        requires
            old(self).wf(),
        ensures
            final(self).wf(),
            final(self).same_stream(old(self)),
            r is Ok <==> spec_read_components(
                old(self).bytes(),
                old(self).posn(),
                old(self).masters(),
            ) is Some,
            r matches Ok(v) ==> spec_read_components(
                old(self).bytes(),
                old(self).posn(),
                old(self).masters(),
            ) == Some((v@.map_values(|c: Component| c@), final(self).posn())),
            r is Err ==> (r matches Err(e) && (e is ReadError || e is BadValue)),
    {
        let ghost d = self.bytes();
        let component_count = match self.read_value() {
            Ok(v) => v,
            Err(e) => { return Err(e) },
        };
        let n: usize = if component_count < 0 {
            0
        } else {
            component_count as usize
        };
        let ghost p1 = self.posn();
        let m = self.number_of_masters();
        let mut components: Vec<Component> = Vec::new();
        proof {
            assert(components@.map_values(|c: Component| c@) =~= Seq::<ComponentVal>::empty());
        }
        let mut i: usize = 0;
        while i < n
            invariant
                i <= n,
                self.wf(),
                self.same_stream(old(self)),
                spec_components_run(d, p1, n as nat, m as nat, Seq::empty())
                    == spec_components_run(
                    d,
                    self.posn(),
                    (n - i) as nat,
                    m as nat,
                    components@.map_values(|c: Component| c@),
                ),
            decreases n - i,
        {
            let gid = match self.read_value() {
                Ok(v) => v,
                Err(e) => { return Err(e) },
            };
            let ghost pg = self.posn();
            let mut x_offset: Vec<i32> = Vec::new();
            let mut y_offset: Vec<i32> = Vec::new();
            let mut x_scale_bits: Vec<u64> = Vec::new();
            let mut y_scale_bits: Vec<u64> = Vec::new();
            let mut j: usize = 0;
            while j < m
                invariant
                    j <= m,
                    self.wf(),
                    self.same_stream(old(self)),
                    spec_comp_masters(
                        d,
                        pg,
                        m as nat,
                        (Seq::empty(), Seq::empty(), Seq::empty(), Seq::empty()),
                    ) == spec_comp_masters(
                        d,
                        self.posn(),
                        (m - j) as nat,
                        (x_offset@, y_offset@, x_scale_bits@, y_scale_bits@),
                    ),
                decreases m - j,
            {
                let xo = match self.read_value() {
                    Ok(v) => v,
                    Err(e) => { return Err(e) },
                };
                let yo = match self.read_value() {
                    Ok(v) => v,
                    Err(e) => { return Err(e) },
                };
                let xs = match self.read_u64() {
                    Ok(v) => v,
                    Err(e) => { return Err(e) },
                };
                let ys = match self.read_u64() {
                    Ok(v) => v,
                    Err(e) => { return Err(e) },
                };
                x_offset.push(xo);
                y_offset.push(yo);
                x_scale_bits.push(xs);
                y_scale_bits.push(ys);
                j = j + 1;
            }
            let comp = Component {
                glyph_index: gid as u32,
                x_offset,
                y_offset,
                x_scale_bits,
                y_scale_bits,
            };
            proof {
                assert(components@.push(comp).map_values(|c: Component| c@)
                    =~= components@.map_values(|c: Component| c@).push(comp@));
            }
            components.push(comp);
            i = i + 1;
        }
        Ok(components)
    }

    /// Read the kerning payload: a pair count, then per pair a right-glyph
    /// id and one kern value per master.
    #[verifier::loop_isolation(false)]
    pub fn read_kerning(&mut self) -> (r: Result<HashMap<i32, Vec<i32>>, VfbError>)
        requires
            old(self).wf(),
        ensures
            final(self).wf(),
            final(self).same_stream(old(self)),
            r is Ok <==> spec_read_kerning(
                old(self).bytes(),
                old(self).posn(),
                old(self).masters(),
            ) is Some,
            r matches Ok(t) ==> spec_read_kerning(
                old(self).bytes(),
                old(self).posn(),
                old(self).masters(),
            ) == Some((spec_kerning_view(t@), final(self).posn())),
            r is Err ==> (r matches Err(e) && (e is ReadError || e is BadValue)),
    {
        let ghost d = self.bytes();
        let pair_count = match self.read_value() {
            Ok(v) => v,
            Err(e) => { return Err(e) },
        };
        let n: usize = if pair_count < 0 {
            0
        } else {
            pair_count as usize
        };
        let ghost p1 = self.posn();
        let m = self.number_of_masters();
        let mut kerning: HashMap<i32, Vec<i32>> = HashMap::new();
        proof {
            assert(spec_kerning_view(kerning@) =~= Map::<i32, Seq<i32>>::empty());
        }
        let mut i: usize = 0;
        while i < n
            invariant
                i <= n,
                self.wf(),
                self.same_stream(old(self)),
                spec_kern_run(d, p1, n as nat, m as nat, Map::empty()) == spec_kern_run(
                    d,
                    self.posn(),
                    (n - i) as nat,
                    m as nat,
                    spec_kerning_view(kerning@),
                ),
            decreases n - i,
        {
            let right_glyph = match self.read_value() {
                Ok(v) => v,
                Err(e) => { return Err(e) },
            };
            let values = match self.read_values(m) {
                Ok(v) => v,
                Err(e) => { return Err(e) },
            };
            proof {
                assert(spec_kerning_view(kerning@.insert(right_glyph, values)) =~= spec_kerning_view(
                    kerning@,
                ).insert(right_glyph, values@));
            }
            kerning.insert(right_glyph, values);
            i = i + 1;
        }
        Ok(kerning)
    }

    /// Read one per-layer delta list, folding the deltas into the running
    /// coordinate accumulator and recording the absolute points.
    #[verifier::loop_isolation(false)]
    fn read_delta_points(&mut self, layers: usize, cur_x: &mut i32, cur_y: &mut i32) -> (r: Result<
        Vec<(i32, i32)>,
        VfbError,
    >)
        requires
            old(self).wf(),
        ensures
            final(self).wf(),
            final(self).same_stream(old(self)),
            r is Ok <==> spec_points(
                old(self).bytes(),
                old(self).posn(),
                layers as nat,
                *old(cur_x),
                *old(cur_y),
                Seq::empty(),
            ) is Some,
            r matches Ok(v) ==> spec_points(
                old(self).bytes(),
                old(self).posn(),
                layers as nat,
                *old(cur_x),
                *old(cur_y),
                Seq::empty(),
            ) == Some(((v@, *final(cur_x), *final(cur_y)), final(self).posn())),
            r is Err ==> (r matches Err(e) && (e is ReadError || e is BadValue)),
    {
        let ghost d = self.bytes();
        let ghost p0 = self.posn();
        let ghost cx0 = *cur_x;
        let ghost cy0 = *cur_y;
        let mut points: Vec<(i32, i32)> = Vec::new();
        let mut i: usize = 0;
        while i < layers
            invariant
                i <= layers,
                self.wf(),
                self.same_stream(old(self)),
                spec_points(d, p0, layers as nat, cx0, cy0, Seq::empty()) == spec_points(
                    d,
                    self.posn(),
                    (layers - i) as nat,
                    *cur_x,
                    *cur_y,
                    points@,
                ),
            decreases layers - i,
        {
            let dx = match self.read_value() {
                Ok(v) => v,
                Err(e) => { return Err(e) },
            };
            let dy = match self.read_value() {
                Ok(v) => v,
                Err(e) => { return Err(e) },
            };
            *cur_x = cur_x.wrapping_add(dx);
            *cur_y = cur_y.wrapping_add(dy);
            points.push((*cur_x, *cur_y));
            i = i + 1;
        }
        Ok(points)
    }

    /// Read the outlines payload: the layer count, a skipped word, the
    /// node count, then the delta-coded nodes. The coordinate accumulator
    /// persists across all nodes and all lists.
    #[verifier::loop_isolation(false)]
    pub fn read_outlines(&mut self) -> (r: Result<Vec<Node>, VfbError>)
        requires
            old(self).wf(),
        ensures
            final(self).wf(),
            final(self).same_stream(old(self)),
            r is Ok <==> spec_read_outlines(old(self).bytes(), old(self).posn()) is Some,
            r matches Ok(v) ==> spec_read_outlines(old(self).bytes(), old(self).posn()) == Some(
                (v@.map_values(|x: Node| x@), final(self).posn()),
            ),
            r is Err ==> (r matches Err(e) && (e is ReadError || e is BadValue
                || e is InvalidPathCommand)),
            spec_outlines_bad_cmd(old(self).bytes(), old(self).posn()) matches Some(c) ==> (
            r matches Err(e) && e matches VfbError::InvalidPathCommand(b) && b == c),
            r matches Err(e) && e is InvalidPathCommand ==> spec_outlines_bad_cmd(
                old(self).bytes(),
                old(self).posn(),
            ) is Some,
    {
        let ghost d = self.bytes();
        let layer_count = match self.read_value() {
            Ok(v) => v,
            Err(e) => { return Err(e) },
        };
        if layer_count < 0 {
            return Err(VfbError::ReadError);
        }
        let layers = layer_count as usize;
        let _node_values = match self.read_value() {
            Ok(v) => v,
            Err(e) => { return Err(e) },
        };
        let node_count = match self.read_value() {
            Ok(v) => v,
            Err(e) => { return Err(e) },
        };
        if node_count < 0 {
            return Err(VfbError::ReadError);
        }
        let n = node_count as usize;
        let ghost p3 = self.posn();
        let mut nodes: Vec<Node> = Vec::new();
        proof {
            assert(nodes@.map_values(|x: Node| x@) =~= Seq::<NodeVal>::empty());
        }
        let mut cur_x: i32 = 0;
        let mut cur_y: i32 = 0;
        let mut i: usize = 0;
        while i < n
            invariant
                i <= n,
                self.wf(),
                self.same_stream(old(self)),
                spec_nodes(d, p3, layers as nat, n as nat, 0, 0, Seq::empty()) == spec_nodes(
                    d,
                    self.posn(),
                    layers as nat,
                    (n - i) as nat,
                    cur_x,
                    cur_y,
                    nodes@.map_values(|x: Node| x@),
                ),
                spec_nodes_bad_cmd(d, p3, layers as nat, n as nat, 0, 0) == spec_nodes_bad_cmd(
                    d,
                    self.posn(),
                    layers as nat,
                    (n - i) as nat,
                    cur_x,
                    cur_y,
                ),
            decreases n - i,
        {
            let byte = match self.read_u8() {
                Ok(v) => v,
                Err(e) => { return Err(e) },
            };
            let command = match PathCommand::try_from(byte % 16) {
                Ok(c) => c,
                Err(e) => { return Err(e) },
            };
            let flags = byte / 16;
            let coords = match self.read_delta_points(layers, &mut cur_x, &mut cur_y) {
                Ok(v) => v,
                Err(e) => { return Err(e) },
            };
            let node = match command {
                PathCommand::Move => Node::Move { coords, flags },
                PathCommand::Line => Node::Line { coords, flags },
                PathCommand::Curve => {
                    let c1_coords = match self.read_delta_points(layers, &mut cur_x, &mut cur_y) {
                        Ok(v) => v,
                        Err(e) => { return Err(e) },
                    };
                    let c2_coords = match self.read_delta_points(layers, &mut cur_x, &mut cur_y) {
                        Ok(v) => v,
                        Err(e) => { return Err(e) },
                    };
                    Node::Curve { coords, c1_coords, c2_coords, flags }
                },
                PathCommand::QCurve => {
                    let c1_coords = match self.read_delta_points(layers, &mut cur_x, &mut cur_y) {
                        Ok(v) => v,
                        Err(e) => { return Err(e) },
                    };
                    Node::QCurve { coords, c1_coords, flags }
                },
            };
            proof {
                assert(nodes@.push(node).map_values(|x: Node| x@) =~= nodes@.map_values(
                    |x: Node| x@,
                ).push(node@));
            }
            nodes.push(node);
            i = i + 1;
        }
        Ok(nodes)
    }

    /// Read the anchors payload: an anchor count and a master count from
    /// the stream, then one (x, y) pair per anchor and master.
    #[verifier::loop_isolation(false)]
    pub fn read_anchors(&mut self) -> (r: Result<Vec<Vec<Anchor>>, VfbError>)
        requires
            old(self).wf(),
        ensures
            final(self).wf(),
            final(self).same_stream(old(self)),
            r is Ok <==> spec_read_anchors(old(self).bytes(), old(self).posn()) is Some,
            r matches Ok(v) ==> spec_read_anchors(old(self).bytes(), old(self).posn()) == Some(
                (
                    v@.map_values(|row: Vec<Anchor>| row@.map_values(|a: Anchor| a@)),
                    final(self).posn(),
                ),
            ),
            r is Err ==> (r matches Err(e) && (e is ReadError || e is BadValue)),
    {
        let ghost d = self.bytes();
        let num_anchors = match self.read_value() {
            Ok(v) => v,
            Err(e) => { return Err(e) },
        };
        let num_master = match self.read_value() {
            Ok(v) => v,
            Err(e) => { return Err(e) },
        };
        let n: usize = if num_anchors < 0 {
            0
        } else {
            num_anchors as usize
        };
        let m: usize = if num_master < 0 {
            0
        } else {
            num_master as usize
        };
        let ghost p2 = self.posn();
        let mut anchors: Vec<Vec<Anchor>> = Vec::new();
        proof {
            assert(anchors@.map_values(|row: Vec<Anchor>| row@.map_values(|a: Anchor| a@))
                =~= Seq::<Seq<(i32, i32)>>::empty());
        }
        let mut i: usize = 0;
        while i < n
            invariant
                i <= n,
                self.wf(),
                self.same_stream(old(self)),
                spec_pair_rows(d, p2, n as nat, m as nat, Seq::empty()) == spec_pair_rows(
                    d,
                    self.posn(),
                    (n - i) as nat,
                    m as nat,
                    anchors@.map_values(|row: Vec<Anchor>| row@.map_values(|a: Anchor| a@)),
                ),
            decreases n - i,
        {
            let pairs = match self.read_value_pairs(m) {
                Ok(v) => v,
                Err(e) => { return Err(e) },
            };
            let mut row: Vec<Anchor> = Vec::new();
            let mut j: usize = 0;
            while j < pairs.len()
                invariant
                    j <= pairs.len(),
                    row@.len() == j,
                    forall|t: int| 0 <= t < j ==> row@[t]@ == pairs@[t],
                decreases pairs.len() - j,
            {
                let (x, y) = pairs[j];
                row.push(Anchor { x, y });
                j = j + 1;
            }
            proof {
                assert(row@.map_values(|a: Anchor| a@) =~= pairs@);
                assert(anchors@.push(row).map_values(
                    |r2: Vec<Anchor>| r2@.map_values(|a: Anchor| a@),
                ) =~= anchors@.map_values(|r2: Vec<Anchor>| r2@.map_values(|a: Anchor| a@)).push(
                    row@.map_values(|a: Anchor| a@),
                ));
            }
            anchors.push(row);
            i = i + 1;
        }
        Ok(anchors)
    }

    /// Read the supplemental anchors payload: a count, then one
    /// (hue, reserved) pair per anchor.
    #[verifier::loop_isolation(false)]
    pub fn read_anchors_supplemental(&mut self) -> (r: Result<Vec<AnchorsSupplemental>, VfbError>)
        requires
            old(self).wf(),
        ensures
            final(self).wf(),
            final(self).same_stream(old(self)),
            r is Ok <==> spec_read_anchors_supplemental(old(self).bytes(), old(self).posn())
                is Some,
            r matches Ok(v) ==> spec_read_anchors_supplemental(old(self).bytes(), old(self).posn())
                == Some((v@.map_values(|a: AnchorsSupplemental| a@), final(self).posn())),
            r is Err ==> (r matches Err(e) && (e is ReadError || e is BadValue)),
    {
        let num_anchors = match self.read_value() {
            Ok(v) => v,
            Err(e) => { return Err(e) },
        };
        let n: usize = if num_anchors < 0 {
            0
        } else {
            num_anchors as usize
        };
        let pairs = match self.read_value_pairs(n) {
            Ok(v) => v,
            Err(e) => { return Err(e) },
        };
        let mut out: Vec<AnchorsSupplemental> = Vec::new();
        let mut j: usize = 0;
        while j < pairs.len()
            invariant
                j <= pairs.len(),
                out@.len() == j,
                forall|t: int| 0 <= t < j ==> out@[t]@ == pairs@[t],
            decreases pairs.len() - j,
        {
            let (hue, reserved) = pairs[j];
            out.push(AnchorsSupplemental { hue, reserved });
            j = j + 1;
        }
        proof {
            assert(out@.map_values(|a: AnchorsSupplemental| a@) =~= pairs@);
        }
        Ok(out)
    }

    /// Read one glyph: the four-byte preamble, then the sub-entry stream
    /// up to its 0x0F terminator.
    #[verifier::loop_isolation(false)]
    pub fn read_glyph(&mut self) -> (r: Result<Vec<GlyphEntry>, VfbError>)
        requires
            old(self).wf(),
        ensures
            final(self).wf(),
            final(self).same_stream(old(self)),
            r is Ok <==> spec_read_glyph(old(self).bytes(), old(self).posn(), old(self).masters())
                is Some,
            r matches Ok(v) ==> spec_read_glyph(
                old(self).bytes(),
                old(self).posn(),
                old(self).masters(),
            ) == Some((spec_glyph_entries_view(v@), final(self).posn())),
            r is Err ==> (r matches Err(e) && (e is ReadError || e is BadValue
                || e is InvalidPathCommand || e is InvalidGlyphHeader || e is Overflow)),
            ({
                let hdr = spec_read_bytes(old(self).bytes(), old(self).posn(), 4)->Some_0.0;
                spec_read_bytes(old(self).bytes(), old(self).posn(), 4) is Some && !(hdr[0] == 1
                    && hdr[1] == 9 && hdr[2] == 7 && hdr[3] == 1)
            }) ==> (r matches Err(e) && e matches VfbError::InvalidGlyphHeader(b) && b@
                == spec_read_bytes(old(self).bytes(), old(self).posn(), 4)->Some_0.0
                && final(self).posn() == old(self).posn() + 4),
    {
        let ghost d = self.bytes();
        let glyph_header = match self.read_bytes(4) {
            Ok(b) => b,
            Err(e) => { return Err(e) },
        };
        if !(glyph_header[0] == 1 && glyph_header[1] == 9 && glyph_header[2] == 7
            && glyph_header[3] == 1) {
            return Err(VfbError::InvalidGlyphHeader(glyph_header));
        }
        let ghost p1 = self.posn();
        let mut entries: Vec<GlyphEntry> = Vec::new();
        proof {
            assert(spec_glyph_entries_view(entries@) =~= Seq::<GlyphEntryVal>::empty());
        }
        loop
            invariant
                self.wf(),
                self.same_stream(old(self)),
                p1 <= self.posn(),
                spec_glyph_entries(d, p1, old(self).masters(), Seq::empty()) == spec_glyph_entries(
                    d,
                    self.posn(),
                    old(self).masters(),
                    spec_glyph_entries_view(entries@),
                ),
            decreases d.len() - self.posn(),
        {
            let ghost p_i = self.posn();
            let raw_key = match self.read_u8() {
                Ok(v) => v,
                Err(e) => { return Err(e) },
            };
            if raw_key == 0x0f {
                return Ok(entries);
            }
            let entry = match GlyphEntry::new_from_reader(raw_key as u16, self) {
                Ok(o) => o,
                Err(e) => { return Err(e) },
            };
            proof {
                lemma_glyph_sub_bounds(d, (p_i + 1) as nat, old(self).masters(), raw_key as u16);
            }
            if let Some(en) = entry {
                proof {
                    assert(spec_glyph_entries_view(entries@.push(en))
                        =~= spec_glyph_entries_view(entries@).push(en@));
                }
                entries.push(en);
            }
        }
    }
}

impl GlyphEntry {
    /// Read the glyph sub-entry selected by the given sub-key; an unknown
    /// sub-key consumes nothing and yields no entry.
    pub fn new_from_reader(key: u16, r: &mut EntryReader) -> (res: Result<
        Option<GlyphEntry>,
        VfbError,
    >)
        requires
            old(r).wf(),
        ensures
            final(r).wf(),
            final(r).same_stream(old(r)),
            res is Ok <==> spec_glyph_sub(old(r).bytes(), old(r).posn(), old(r).masters(), key)
                is Some,
            res matches Ok(o) ==> (spec_glyph_sub(
                old(r).bytes(),
                old(r).posn(),
                old(r).masters(),
                key,
            ) matches Some((ov, q)) && final(r).posn() == q && (match (o, ov) {
                (Option::Some(en), Option::Some(ev)) => en@ == ev,
                (Option::None, Option::None) => true,
                _ => false,
            })),
            res is Err ==> (res matches Err(e) && (e is ReadError || e is BadValue
                || e is InvalidPathCommand || e is Overflow)),
    {
        if key == 1 {
            match r.read_str_with_len() {
                Ok(s) => Ok(Some(GlyphEntry::GlyphName(s))),
                Err(e) => Err(e),
            }
        } else if key == 2 {
            match r.read_glyph_metrics() {
                Ok(v) => Ok(Some(GlyphEntry::Metrics(v))),
                Err(e) => Err(e),
            }
        } else if key == 3 {
            match r.read_hints() {
                Ok(h) => Ok(Some(GlyphEntry::Hints(h))),
                Err(e) => Err(e),
            }
        } else if key == 4 {
            match r.read_guides() {
                Ok(g) => Ok(Some(GlyphEntry::Guides(g))),
                Err(e) => Err(e),
            }
        } else if key == 5 {
            match r.read_components() {
                Ok(c) => Ok(Some(GlyphEntry::Components(c))),
                Err(e) => Err(e),
            }
        } else if key == 6 {
            match r.read_kerning() {
                Ok(t) => Ok(Some(GlyphEntry::Kerning(t))),
                Err(e) => Err(e),
            }
        } else if key == 8 {
            match r.read_outlines() {
                Ok(v) => Ok(Some(GlyphEntry::Outlines(v))),
                Err(e) => Err(e),
            }
        } else if key == 9 {
            match r.read_bytes_remainder() {
                Ok(b) => Ok(Some(GlyphEntry::Binary(RawData(b)))),
                Err(e) => Err(e),
            }
        } else if key == 10 {
            match r.read_bytes_remainder() {
                Ok(b) => Ok(Some(GlyphEntry::Instructions(RawData(b)))),
                Err(e) => Err(e),
            }
        } else {
            Ok(None)
        }
    }
}


impl GlyphEntry {
    /// The variant name of a sub-key in the glyph's catalogue.
    pub open spec fn spec_key_to_variant(key: u16) -> Option<Seq<char>> {
        if key == 1 {
        Some("GlyphName"@)
    } else if key == 2 {
        Some("Metrics"@)
    } else if key == 3 {
        Some("Hints"@)
    } else if key == 4 {
        Some("Guides"@)
    } else if key == 5 {
        Some("Components"@)
    } else if key == 6 {
        Some("Kerning"@)
    } else if key == 8 {
        Some("Outlines"@)
    } else if key == 9 {
        Some("Binary"@)
    } else if key == 10 {
        Some("Instructions"@)
    } else {
        None
    }
    }

    /// The sub-key of a variant name.
    pub open spec fn spec_variant_to_key(name: Seq<char>) -> Option<u16> {
        if name == "GlyphName"@ {
        Some(1 as u16)
    } else if name == "Metrics"@ {
        Some(2 as u16)
    } else if name == "Hints"@ {
        Some(3 as u16)
    } else if name == "Guides"@ {
        Some(4 as u16)
    } else if name == "Components"@ {
        Some(5 as u16)
    } else if name == "Kerning"@ {
        Some(6 as u16)
    } else if name == "Outlines"@ {
        Some(8 as u16)
    } else if name == "Binary"@ {
        Some(9 as u16)
    } else if name == "Instructions"@ {
        Some(10 as u16)
    } else {
        None
    }
    }

    /// Get the variant name from a binary sub-key.
    pub fn key_to_variant(key: u16) -> (r: Option<&'static str>)
        ensures
            r is Some <==> Self::spec_key_to_variant(key) is Some,
            r matches Some(s) ==> Self::spec_key_to_variant(key) == Some(s@),
    {
        match key {
            1 => Some("GlyphName"),
            2 => Some("Metrics"),
            3 => Some("Hints"),
            4 => Some("Guides"),
            5 => Some("Components"),
            6 => Some("Kerning"),
            8 => Some("Outlines"),
            9 => Some("Binary"),
            10 => Some("Instructions"),
            _ => None,
        }
    }

    /// Get the binary sub-key from a variant name.
    pub fn variant_to_key(variant: &str) -> (r: Option<u16>)
        ensures
            r == Self::spec_variant_to_key(variant@),
    {
        if crate::entries::str_eq(variant, "GlyphName") {
            Some(1)
        } else if crate::entries::str_eq(variant, "Metrics") {
            Some(2)
        } else if crate::entries::str_eq(variant, "Hints") {
            Some(3)
        } else if crate::entries::str_eq(variant, "Guides") {
            Some(4)
        } else if crate::entries::str_eq(variant, "Components") {
            Some(5)
        } else if crate::entries::str_eq(variant, "Kerning") {
            Some(6)
        } else if crate::entries::str_eq(variant, "Outlines") {
            Some(8)
        } else if crate::entries::str_eq(variant, "Binary") {
            Some(9)
        } else if crate::entries::str_eq(variant, "Instructions") {
            Some(10)
        } else {
            None
        }
    }
}

/// For every sub-key in the glyph's catalogue, mapping the key to its
/// variant name and back yields the key again.
pub proof fn lemma_glyph_key_variant_round_trip(key: u16)
    ensures
        GlyphEntry::spec_key_to_variant(key) matches Some(nm) ==> GlyphEntry::spec_variant_to_key(
            nm,
        ) == Some(key),
{
    reveal_strlit("GlyphName");
    assert("GlyphName"@.len() == 9);
    reveal_strlit("Metrics");
    assert("Metrics"@.len() == 7);
    reveal_strlit("Hints");
    assert("Hints"@.len() == 5);
    reveal_strlit("Guides");
    assert("Guides"@.len() == 6);
    reveal_strlit("Components");
    assert("Components"@.len() == 10);
    reveal_strlit("Kerning");
    assert("Kerning"@.len() == 7);
    reveal_strlit("Outlines");
    assert("Outlines"@.len() == 8);
    reveal_strlit("Binary");
    assert("Binary"@.len() == 6);
    reveal_strlit("Instructions");
    assert("Instructions"@.len() == 12);
    assert("Metrics"@[0] == 'M');
    assert("Kerning"@[0] == 'K');
    assert("Guides"@[0] == 'G');
    assert("Binary"@[0] == 'B');
}

impl HintMask {
    /// The variant name of a hint-mask sub-key.
    pub open spec fn spec_key_to_variant(key: u16) -> Option<Seq<char>> {
        if key == 1 {
        Some("Horizontal"@)
    } else if key == 2 {
        Some("Vertical"@)
    } else if key == 255 {
        Some("ReplacementPoint"@)
    } else {
        None
    }
    }

    /// The sub-key of a variant name.
    pub open spec fn spec_variant_to_key(name: Seq<char>) -> Option<u16> {
        if name == "Horizontal"@ {
        Some(1 as u16)
    } else if name == "Vertical"@ {
        Some(2 as u16)
    } else if name == "ReplacementPoint"@ {
        Some(255 as u16)
    } else {
        None
    }
    }

    /// Get the variant name from a binary sub-key.
    pub fn key_to_variant(key: u16) -> (r: Option<&'static str>)
        ensures
            r is Some <==> Self::spec_key_to_variant(key) is Some,
            r matches Some(s) ==> Self::spec_key_to_variant(key) == Some(s@),
    {
        match key {
            1 => Some("Horizontal"),
            2 => Some("Vertical"),
            255 => Some("ReplacementPoint"),
            _ => None,
        }
    }

    /// Get the binary sub-key from a variant name.
    pub fn variant_to_key(variant: &str) -> (r: Option<u16>)
        ensures
            r == Self::spec_variant_to_key(variant@),
    {
        if crate::entries::str_eq(variant, "Horizontal") {
            Some(1)
        } else if crate::entries::str_eq(variant, "Vertical") {
            Some(2)
        } else if crate::entries::str_eq(variant, "ReplacementPoint") {
            Some(255)
        } else {
            None
        }
    }
}

/// For every hint-mask sub-key, mapping the key to its variant name and
/// back yields the key again.
pub proof fn lemma_hint_mask_key_variant_round_trip(key: u16)
    ensures
        HintMask::spec_key_to_variant(key) matches Some(nm) ==> HintMask::spec_variant_to_key(nm)
            == Some(key),
{
    reveal_strlit("Horizontal");
    assert("Horizontal"@.len() == 10);
    reveal_strlit("Vertical");
    assert("Vertical"@.len() == 8);
    reveal_strlit("ReplacementPoint");
    assert("ReplacementPoint"@.len() == 16);
}

} // verus!
