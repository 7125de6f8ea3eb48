//! The tessellation engine: shape plus style in, flat triangles out.
//!
//! Every function here mirrors one drawing primitive. Coordinates are tape
//! entries (see [`crate::scalar`]); a function that needs a derived scalar
//! (an offset corner, a circle sample) appends the arithmetic to the tape
//! and refers to the new entries. Each contract states the exact list of
//! operations appended and the exact triangles returned, so the whole
//! geometry of the output is pinned down to the host's arithmetic.

use vstd::prelude::*;

use crate::mesh::{point_wf, tri_wf, tris_wf, GlTriangle, PointId};
use crate::scalar::{ScalarId, ScalarOp, Tape};
use crate::settings::StrokeCap;

verus! {

/// How many chords approximate a full circle in round caps.
pub const CIRCLE_SEGMENTS: usize = 20;

/// The tape entry at position `i`.
pub open spec fn sid(i: int) -> ScalarId {
    ScalarId { index: i as usize }
}

/// One boundary edge of a stroked shape.
#[derive(Debug, Clone, Copy, PartialEq, Eq, Structural)]
pub struct Edge {
    pub a: PointId,
    pub b: PointId,
}

impl Edge {
    pub fn new(a: PointId, b: PointId) -> (e: Edge)
        ensures
            e == (Edge { a, b }),
    {
        Edge { a, b }
    }
}

pub open spec fn edge_wf(e: Edge, bound: int) -> bool {
    point_wf(e.a, bound) && point_wf(e.b, bound)
}

pub open spec fn edges_wf(es: Seq<Edge>, bound: int) -> bool {
    forall|i: int| 0 <= i < es.len() ==> edge_wf(#[trigger] es[i], bound)
}

/// A convex quad split along its first diagonal.
pub open spec fn quad_tris(a: PointId, b: PointId, c: PointId, d: PointId) -> Seq<GlTriangle> {
    seq![GlTriangle { a, b, c }, GlTriangle { a, b: c, c: d }]
}

/// A single filled triangle: the three corners, in caller order.
pub fn triangle(a: PointId, b: PointId, c: PointId) -> (r: GlTriangle)
    ensures
        r == (GlTriangle { a, b, c }),
{
    GlTriangle { a, b, c }
}

/// A filled quad: two triangles along the diagonal from the first to the
/// third corner. Correct cover only for convex, simply ordered quads.
pub fn quad(a: PointId, b: PointId, c: PointId, d: PointId) -> (r: Vec<GlTriangle>)
    ensures
        r@ == quad_tris(a, b, c, d),
{
    let mut r: Vec<GlTriangle> = Vec::new();
    r.push(GlTriangle { a, b, c });
    r.push(GlTriangle { a, b: c, c: d });
    proof {
        assert(r@ =~= quad_tris(a, b, c, d));
    }
    r
}

/// The operations that widen a segment into its stroked rectangle: half the
/// weight, the segment's direction angle, the perpendicular offset, and the
/// four corners at `a +- offset`, `b +- offset`.
pub open spec fn line_no_cap_ops(a: PointId, b: PointId, w: ScalarId, base: int) -> Seq<
    ScalarOp,
> {
    seq![
        ScalarOp::OfInt(2),                              // half the weight
        ScalarOp::Div(w, sid(base)),
        ScalarOp::Sub(b.x, a.x),                         // direction angle
        ScalarOp::Sub(b.y, a.y),
        ScalarOp::Atan2(sid(base + 3), sid(base + 2)),
        ScalarOp::Pi,                                    // a quarter turn
        ScalarOp::OfInt(2),
        ScalarOp::Div(sid(base + 5), sid(base + 6)),
        ScalarOp::Add(sid(base + 4), sid(base + 7)),     // perpendicular
        ScalarOp::Cos(sid(base + 8)),                    // offset vector
        ScalarOp::Mul(sid(base + 1), sid(base + 9)),
        ScalarOp::Sin(sid(base + 8)),
        ScalarOp::Mul(sid(base + 1), sid(base + 11)),
        ScalarOp::Sub(a.x, sid(base + 10)),              // the four corners
        ScalarOp::Sub(a.y, sid(base + 12)),
        ScalarOp::Sub(b.x, sid(base + 10)),
        ScalarOp::Sub(b.y, sid(base + 12)),
        ScalarOp::Add(b.x, sid(base + 10)),
        ScalarOp::Add(b.y, sid(base + 12)),
        ScalarOp::Add(a.x, sid(base + 10)),
        ScalarOp::Add(a.y, sid(base + 12)),
    ]
}

/// The stroked rectangle of a butt-capped segment, as two triangles over
/// the four fresh corners.
pub open spec fn line_no_cap_tris(base: int) -> Seq<GlTriangle> {
    quad_tris(
        PointId { x: sid(base + 13), y: sid(base + 14) },
        PointId { x: sid(base + 15), y: sid(base + 16) },
        PointId { x: sid(base + 17), y: sid(base + 18) },
        PointId { x: sid(base + 19), y: sid(base + 20) },
    )
}

/// Stroke a segment with no cap: a rectangle along the segment, offset half
/// the weight to each side, split into two triangles.
pub fn line_no_cap(t: &mut Tape, a: PointId, b: PointId, w: ScalarId) -> (r: Vec<GlTriangle>)
    requires
        old(t).wf(),
        point_wf(a, old(t).len()),
        point_wf(b, old(t).len()),
        old(t).holds(w),
    ensures
        final(t).ops@ == old(t).ops@ + line_no_cap_ops(a, b, w, old(t).len()),
        r@ == line_no_cap_tris(old(t).len()),
        final(t).wf(),
        tris_wf(r@, final(t).len()),
{
    let ghost base = old(t).len();
    let two = t.push_int(2);
    let hw = t.push_op(ScalarOp::Div(w, two));
    let dx = t.push_op(ScalarOp::Sub(b.x, a.x));
    let dy = t.push_op(ScalarOp::Sub(b.y, a.y));
    let dir = t.push_op(ScalarOp::Atan2(dy, dx));
    let pi = t.push_op(ScalarOp::Pi);
    let two2 = t.push_int(2);
    let quarter = t.push_op(ScalarOp::Div(pi, two2));
    let perp = t.push_op(ScalarOp::Add(dir, quarter));
    let cos = t.push_op(ScalarOp::Cos(perp));
    let ex = t.push_op(ScalarOp::Mul(hw, cos));
    let sin = t.push_op(ScalarOp::Sin(perp));
    let ey = t.push_op(ScalarOp::Mul(hw, sin));
    let p1x = t.push_op(ScalarOp::Sub(a.x, ex));
    let p1y = t.push_op(ScalarOp::Sub(a.y, ey));
    let p2x = t.push_op(ScalarOp::Sub(b.x, ex));
    let p2y = t.push_op(ScalarOp::Sub(b.y, ey));
    let p3x = t.push_op(ScalarOp::Add(b.x, ex));
    let p3y = t.push_op(ScalarOp::Add(b.y, ey));
    let p4x = t.push_op(ScalarOp::Add(a.x, ex));
    let p4y = t.push_op(ScalarOp::Add(a.y, ey));
    proof {
        assert(t.ops@ =~= old(t).ops@ + line_no_cap_ops(a, b, w, base));
    }
    let r = quad(
        PointId { x: p1x, y: p1y },
        PointId { x: p2x, y: p2y },
        PointId { x: p3x, y: p3y },
        PointId { x: p4x, y: p4y },
    );
    proof {
        assert(r@ =~= line_no_cap_tris(base));
    }
    r
}

/// The operations of one parametric boundary sample: the point
/// `center + (cos ang * rx, sin ang * ry)`.
pub open spec fn sample_ops(c: PointId, rx: ScalarId, ry: ScalarId, ang: ScalarId, base: int) -> Seq<ScalarOp> {
    seq![
        ScalarOp::Cos(ang),
        ScalarOp::Mul(sid(base), rx),
        ScalarOp::Add(c.x, sid(base + 1)),
        ScalarOp::Sin(ang),
        ScalarOp::Mul(sid(base + 3), ry),
        ScalarOp::Add(c.y, sid(base + 4)),
    ]
}

/// The point a [`sample_ops`] block at `base` produces.
pub open spec fn sample_pt(base: int) -> PointId {
    PointId { x: sid(base + 2), y: sid(base + 5) }
}

/// Append one parametric boundary sample to the tape.
fn push_sample(t: &mut Tape, c: PointId, rx: ScalarId, ry: ScalarId, ang: ScalarId) -> (p: PointId)
    requires
        old(t).wf(),
        point_wf(c, old(t).len()),
        old(t).holds(rx),
        old(t).holds(ry),
        old(t).holds(ang),
    ensures
        final(t).ops@ == old(t).ops@ + sample_ops(c, rx, ry, ang, old(t).len()),
        p == sample_pt(old(t).len()),
        final(t).wf(),
        point_wf(p, final(t).len()),
{
    let cos = t.push_op(ScalarOp::Cos(ang));
    let mx = t.push_op(ScalarOp::Mul(cos, rx));
    let px = t.push_op(ScalarOp::Add(c.x, mx));
    let sin = t.push_op(ScalarOp::Sin(ang));
    let my = t.push_op(ScalarOp::Mul(sin, ry));
    let py = t.push_op(ScalarOp::Add(c.y, my));
    proof {
        assert(t.ops@ =~= old(t).ops@ + sample_ops(c, rx, ry, ang, old(t).len()));
    }
    PointId { x: px, y: py }
}

/// One full-ellipse fan step: the two sample angles `i * step` and
/// `(i + 1) * step`, then the two boundary samples.
pub open spec fn ellipse_iter_ops(
    c: PointId,
    rx: ScalarId,
    ry: ScalarId,
    step: ScalarId,
    i: int,
    base: int,
) -> Seq<ScalarOp> {
    seq![
        ScalarOp::OfInt(i as usize),
        ScalarOp::Mul(sid(base), step),
        ScalarOp::OfInt((i + 1) as usize),
        ScalarOp::Mul(sid(base + 2), step),
    ] + sample_ops(c, rx, ry, sid(base + 1), base + 4) + sample_ops(c, rx, ry, sid(base + 3), base + 10)
}

/// The triangle of one fan step: the shared center and the two samples.
pub open spec fn ellipse_iter_tri(c: PointId, base: int) -> GlTriangle {
    GlTriangle { a: c, b: sample_pt(base + 4), c: sample_pt(base + 10) }
}

/// The first `n` fan steps of a full ellipse, concatenated.
pub open spec fn ellipse_fan_ops(
    c: PointId,
    rx: ScalarId,
    ry: ScalarId,
    step: ScalarId,
    n: int,
    base: int,
) -> Seq<ScalarOp>
    decreases n,
{
    if n <= 0 {
        Seq::<ScalarOp>::empty()
    } else {
        ellipse_fan_ops(c, rx, ry, step, n - 1, base) + ellipse_iter_ops(
            c,
            rx,
            ry,
            step,
            n - 1,
            base + 16 * (n - 1),
        )
    }
}

pub open spec fn ellipse_fan_tris(c: PointId, n: int, base: int) -> Seq<GlTriangle>
    decreases n,
{
    if n <= 0 {
        Seq::<GlTriangle>::empty()
    } else {
        ellipse_fan_tris(c, n - 1, base).push(ellipse_iter_tri(c, base + 16 * (n - 1)))
    }
}

pub proof fn lemma_ellipse_fan_ops_len(
    c: PointId,
    rx: ScalarId,
    ry: ScalarId,
    step: ScalarId,
    n: int,
    base: int,
)
    ensures
        ellipse_fan_ops(c, rx, ry, step, n, base).len() == if n <= 0 {
            0
        } else {
            16 * n
        },
        ellipse_fan_tris(c, n, base).len() == if n <= 0 {
            0
        } else {
            n
        },
    decreases n,
{
    if n > 0 {
        lemma_ellipse_fan_ops_len(c, rx, ry, step, n - 1, base);
    }
}

/// The angular step of a full ellipse: one turn over the segment count.
pub open spec fn ellipse_setup_ops(n: int, base: int) -> Seq<ScalarOp> {
    seq![
        ScalarOp::OfInt(2),
        ScalarOp::Pi,
        ScalarOp::Mul(sid(base), sid(base + 1)),
        ScalarOp::OfInt(n as usize),
        ScalarOp::Div(sid(base + 2), sid(base + 3)),
    ]
}

/// All operations of a full-ellipse fill: the step, then `n` fan steps.
pub open spec fn ellipse_ops(c: PointId, rx: ScalarId, ry: ScalarId, n: int, base: int) -> Seq<ScalarOp> {
    ellipse_setup_ops(n, base) + ellipse_fan_ops(c, rx, ry, sid(base + 4), n, base + 5)
}

/// The triangles of a full-ellipse fill.
pub open spec fn ellipse_tris(c: PointId, n: int, base: int) -> Seq<GlTriangle> {
    ellipse_fan_tris(c, n, base + 5)
}

/// Fill an ellipse: a fan of `segments` triangles from the center, each
/// spanning one angular step of the boundary.
pub fn ellipse(t: &mut Tape, center: PointId, rx: ScalarId, ry: ScalarId, segments: usize) -> (r:
    Vec<GlTriangle>)
    requires
        old(t).wf(),
        point_wf(center, old(t).len()),
        old(t).holds(rx),
        old(t).holds(ry),
    ensures
        final(t).ops@ == old(t).ops@ + ellipse_ops(center, rx, ry, segments as int, old(t).len()),
        r@ == ellipse_tris(center, segments as int, old(t).len()),
        r@.len() == segments,
        final(t).wf(),
        tris_wf(r@, final(t).len()),
{
    let ghost base = old(t).len();
    let two = t.push_int(2);
    let pi = t.push_op(ScalarOp::Pi);
    let tau = t.push_op(ScalarOp::Mul(two, pi));
    let segs = t.push_int(segments);
    let step = t.push_op(ScalarOp::Div(tau, segs));
    let ghost fan_base = base + 5;
    proof {
        assert(t.ops@ =~= old(t).ops@ + ellipse_setup_ops(segments as int, base));
    }
    let mut r: Vec<GlTriangle> = Vec::new();
    let mut i: usize = 0;
    while i < segments
        invariant
            i <= segments,
            t.wf(),
            step.index == base + 4,
            fan_base == base + 5,
            point_wf(center, base),
            rx.index < base,
            ry.index < base,
            t.ops@ == old(t).ops@ + ellipse_setup_ops(segments as int, base) + ellipse_fan_ops(
                center,
                rx,
                ry,
                step,
                i as int,
                fan_base,
            ),
            old(t).ops@.len() == base,
            r@ == ellipse_fan_tris(center, i as int, fan_base),
            r@.len() == i,
            tris_wf(r@, t.len()),
        decreases segments - i,
    {
        let ghost pre_ops = t.ops@;
        let ghost iter_base = fan_base + 16 * (i as int);
        proof {
            lemma_ellipse_fan_ops_len(center, rx, ry, step, i as int, fan_base);
            assert(t.len() == iter_base);
        }
        let ia = t.push_int(i);
        let aa = t.push_op(ScalarOp::Mul(ia, step));
        let ib = t.push_int(i + 1);
        let ab = t.push_op(ScalarOp::Mul(ib, step));
        let pa = push_sample(t, center, rx, ry, aa);
        let pb = push_sample(t, center, rx, ry, ab);
        proof {
            assert(t.ops@ =~= pre_ops + ellipse_iter_ops(center, rx, ry, step, i as int, iter_base));
            assert(ellipse_fan_ops(center, rx, ry, step, i as int + 1, fan_base) == ellipse_fan_ops(
                center,
                rx,
                ry,
                step,
                i as int,
                fan_base,
            ) + ellipse_iter_ops(center, rx, ry, step, i as int, iter_base));
            assert(t.ops@ =~= old(t).ops@ + ellipse_setup_ops(segments as int, base)
                + ellipse_fan_ops(center, rx, ry, step, i as int + 1, fan_base));
            assert(pa == sample_pt(iter_base + 4));
            assert(pb == sample_pt(iter_base + 10));
        }
        r.push(GlTriangle { a: center, b: pa, c: pb });
        proof {
            assert(r@ =~= ellipse_fan_tris(center, i as int + 1, fan_base));
            assert forall|k: int| 0 <= k < r@.len() implies tri_wf(#[trigger] r@[k], t.len()) by {}
        }
        i = i + 1;
    }
    r
}

/// One arc fan step: the two sample angles `start + i * step` and
/// `start + (i + 1) * step`, then the two boundary samples.
pub open spec fn arc_iter_ops(
    c: PointId,
    rx: ScalarId,
    ry: ScalarId,
    start: ScalarId,
    step: ScalarId,
    i: int,
    base: int,
) -> Seq<ScalarOp> {
    seq![
        ScalarOp::OfInt(i as usize),
        ScalarOp::Mul(sid(base), step),
        ScalarOp::Add(start, sid(base + 1)),
        ScalarOp::OfInt((i + 1) as usize),
        ScalarOp::Mul(sid(base + 3), step),
        ScalarOp::Add(start, sid(base + 4)),
    ] + sample_ops(c, rx, ry, sid(base + 2), base + 6) + sample_ops(c, rx, ry, sid(base + 5), base + 12)
}

pub open spec fn arc_iter_tri(c: PointId, base: int) -> GlTriangle {
    GlTriangle { a: c, b: sample_pt(base + 6), c: sample_pt(base + 12) }
}

/// The first `n` fan steps of an arc, concatenated.
pub open spec fn arc_fan_ops(
    c: PointId,
    rx: ScalarId,
    ry: ScalarId,
    start: ScalarId,
    step: ScalarId,
    n: int,
    base: int,
) -> Seq<ScalarOp>
    decreases n,
{
    if n <= 0 {
        Seq::<ScalarOp>::empty()
    } else {
        arc_fan_ops(c, rx, ry, start, step, n - 1, base) + arc_iter_ops(
            c,
            rx,
            ry,
            start,
            step,
            n - 1,
            base + 18 * (n - 1),
        )
    }
}

pub open spec fn arc_fan_tris(c: PointId, n: int, base: int) -> Seq<GlTriangle>
    decreases n,
{
    if n <= 0 {
        Seq::<GlTriangle>::empty()
    } else {
        arc_fan_tris(c, n - 1, base).push(arc_iter_tri(c, base + 18 * (n - 1)))
    }
}

pub proof fn lemma_arc_fan_ops_len(
    c: PointId,
    rx: ScalarId,
    ry: ScalarId,
    start: ScalarId,
    step: ScalarId,
    n: int,
    base: int,
)
    ensures
        arc_fan_ops(c, rx, ry, start, step, n, base).len() == if n <= 0 {
            0
        } else {
            18 * n
        },
        arc_fan_tris(c, n, base).len() == if n <= 0 {
            0
        } else {
            n
        },
    decreases n,
{
    if n > 0 {
        lemma_arc_fan_ops_len(c, rx, ry, start, step, n - 1, base);
    }
}

/// The angular step of an arc: the swept angle over the segment count.
pub open spec fn arc_setup_ops(start: ScalarId, end: ScalarId, n: int, base: int) -> Seq<ScalarOp> {
    seq![
        ScalarOp::Sub(end, start),
        ScalarOp::OfInt(n as usize),
        ScalarOp::Div(sid(base), sid(base + 1)),
    ]
}

/// All operations of an arc fill: the step, then `n` fan steps.
pub open spec fn ellipse_arc_ops(
    c: PointId,
    rx: ScalarId,
    ry: ScalarId,
    start: ScalarId,
    end: ScalarId,
    n: int,
    base: int,
) -> Seq<ScalarOp> {
    arc_setup_ops(start, end, n, base) + arc_fan_ops(c, rx, ry, start, sid(base + 2), n, base + 3)
}

pub open spec fn ellipse_arc_tris(c: PointId, n: int, base: int) -> Seq<GlTriangle> {
    arc_fan_tris(c, n, base + 3)
}

/// Fill an elliptic arc: a fan of `segments` triangles from the center,
/// sweeping from the start angle to the end angle. The arc is not closed:
/// no triangle connects the end back to the start.
pub fn ellipse_arc(
    t: &mut Tape,
    center: PointId,
    rx: ScalarId,
    ry: ScalarId,
    start: ScalarId,
    end: ScalarId,
    segments: usize,
) -> (r: Vec<GlTriangle>)
    requires
        old(t).wf(),
        point_wf(center, old(t).len()),
        old(t).holds(rx),
        old(t).holds(ry),
        old(t).holds(start),
        old(t).holds(end),
    ensures
        final(t).ops@ == old(t).ops@ + ellipse_arc_ops(
            center,
            rx,
            ry,
            start,
            end,
            segments as int,
            old(t).len(),
        ),
        r@ == ellipse_arc_tris(center, segments as int, old(t).len()),
        r@.len() == segments,
        final(t).wf(),
        tris_wf(r@, final(t).len()),
{
    let ghost base = old(t).len();
    let sweep = t.push_op(ScalarOp::Sub(end, start));
    let segs = t.push_int(segments);
    let step = t.push_op(ScalarOp::Div(sweep, segs));
    let ghost fan_base = base + 3;
    proof {
        assert(t.ops@ =~= old(t).ops@ + arc_setup_ops(start, end, segments as int, base));
    }
    let mut r: Vec<GlTriangle> = Vec::new();
    let mut i: usize = 0;
    while i < segments
        invariant
            i <= segments,
            t.wf(),
            step.index == base + 2,
            fan_base == base + 3,
            point_wf(center, base),
            rx.index < base,
            ry.index < base,
            start.index < base,
            t.ops@ == old(t).ops@ + arc_setup_ops(start, end, segments as int, base) + arc_fan_ops(
                center,
                rx,
                ry,
                start,
                step,
                i as int,
                fan_base,
            ),
            old(t).ops@.len() == base,
            r@ == arc_fan_tris(center, i as int, fan_base),
            r@.len() == i,
            tris_wf(r@, t.len()),
        decreases segments - i,
    {
        let ghost pre_ops = t.ops@;
        let ghost iter_base = fan_base + 18 * (i as int);
        proof {
            lemma_arc_fan_ops_len(center, rx, ry, start, step, i as int, fan_base);
            assert(t.len() == iter_base);
        }
        let ia = t.push_int(i);
        let ma = t.push_op(ScalarOp::Mul(ia, step));
        let aa = t.push_op(ScalarOp::Add(start, ma));
        let ib = t.push_int(i + 1);
        let mb = t.push_op(ScalarOp::Mul(ib, step));
        let ab = t.push_op(ScalarOp::Add(start, mb));
        let pa = push_sample(t, center, rx, ry, aa);
        let pb = push_sample(t, center, rx, ry, ab);
        proof {
            assert(t.ops@ =~= pre_ops + arc_iter_ops(center, rx, ry, start, step, i as int, iter_base));
            assert(arc_fan_ops(center, rx, ry, start, step, i as int + 1, fan_base) == arc_fan_ops(
                center,
                rx,
                ry,
                start,
                step,
                i as int,
                fan_base,
            ) + arc_iter_ops(center, rx, ry, start, step, i as int, iter_base));
            assert(t.ops@ =~= old(t).ops@ + arc_setup_ops(start, end, segments as int, base)
                + arc_fan_ops(center, rx, ry, start, step, i as int + 1, fan_base));
            assert(pa == sample_pt(iter_base + 6));
            assert(pb == sample_pt(iter_base + 12));
        }
        r.push(GlTriangle { a: center, b: pa, c: pb });
        proof {
            assert(r@ =~= arc_fan_tris(center, i as int + 1, fan_base));
            assert forall|k: int| 0 <= k < r@.len() implies tri_wf(#[trigger] r@[k], t.len()) by {}
        }
        i = i + 1;
    }
    r
}

/// Fill a circle: an ellipse fan with both axes equal to the radius.
pub fn circle(t: &mut Tape, center: PointId, radius: ScalarId, segments: usize) -> (r: Vec<
    GlTriangle,
>)
    requires
        old(t).wf(),
        point_wf(center, old(t).len()),
        old(t).holds(radius),
    ensures
        final(t).ops@ == old(t).ops@ + ellipse_ops(
            center,
            radius,
            radius,
            segments as int,
            old(t).len(),
        ),
        r@ == ellipse_tris(center, segments as int, old(t).len()),
        r@.len() == segments,
        final(t).wf(),
        tris_wf(r@, final(t).len()),
{
    ellipse(t, center, radius, radius, segments)
}

/// Fill a circular arc: an arc fan with both axes equal to the radius.
pub fn arc(
    t: &mut Tape,
    center: PointId,
    radius: ScalarId,
    start: ScalarId,
    end: ScalarId,
    segments: usize,
) -> (r: Vec<GlTriangle>)
    requires
        old(t).wf(),
        point_wf(center, old(t).len()),
        old(t).holds(radius),
        old(t).holds(start),
        old(t).holds(end),
    ensures
        final(t).ops@ == old(t).ops@ + ellipse_arc_ops(
            center,
            radius,
            radius,
            start,
            end,
            segments as int,
            old(t).len(),
        ),
        r@ == ellipse_arc_tris(center, segments as int, old(t).len()),
        r@.len() == segments,
        final(t).wf(),
        tris_wf(r@, final(t).len()),
{
    ellipse_arc(t, center, radius, radius, start, end, segments)
}

/// How many tape entries one round endpoint disc takes: the halved weight
/// and the circle fan.
pub open spec fn circle_block_len() -> int {
    7 + 16 * (CIRCLE_SEGMENTS as int)
}

/// The operations of a round-capped stroked segment: a disc at each
/// endpoint, then the butt rectangle.
pub open spec fn round_line_ops(a: PointId, b: PointId, w: ScalarId, base: int) -> Seq<ScalarOp> {
    seq![ScalarOp::OfInt(2), ScalarOp::Div(w, sid(base))] + ellipse_ops(
        a,
        sid(base + 1),
        sid(base + 1),
        CIRCLE_SEGMENTS as int,
        base + 2,
    ) + seq![ScalarOp::OfInt(2), ScalarOp::Div(w, sid(base + circle_block_len()))] + ellipse_ops(
        b,
        sid(base + circle_block_len() + 1),
        sid(base + circle_block_len() + 1),
        CIRCLE_SEGMENTS as int,
        base + circle_block_len() + 2,
    ) + line_no_cap_ops(a, b, w, base + 2 * circle_block_len())
}

/// The triangles of a round-capped stroked segment: the two endpoint fans,
/// then the two rectangle halves.
pub open spec fn round_line_tris(a: PointId, b: PointId, base: int) -> Seq<GlTriangle> {
    ellipse_tris(a, CIRCLE_SEGMENTS as int, base + 2) + ellipse_tris(
        b,
        CIRCLE_SEGMENTS as int,
        base + circle_block_len() + 2,
    ) + line_no_cap_tris(base + 2 * circle_block_len())
}

pub proof fn lemma_round_line_len(a: PointId, b: PointId, w: ScalarId, base: int)
    ensures
        round_line_ops(a, b, w, base).len() == round_line_len(),
        round_line_tris(a, b, base).len() == round_line_tri_count(),
{
    lemma_ellipse_fan_ops_len(
        a,
        sid(base + 1),
        sid(base + 1),
        sid(base + 2 + 4),
        CIRCLE_SEGMENTS as int,
        base + 2 + 5,
    );
    lemma_ellipse_fan_ops_len(
        b,
        sid(base + circle_block_len() + 1),
        sid(base + circle_block_len() + 1),
        sid(base + circle_block_len() + 2 + 4),
        CIRCLE_SEGMENTS as int,
        base + circle_block_len() + 2 + 5,
    );
}

/// How many tape entries a round-capped segment takes in all.
pub open spec fn round_line_len() -> int {
    2 * circle_block_len() + 21
}

/// How many triangles a round-capped segment yields: one fan per endpoint
/// and the two rectangle halves.
pub open spec fn round_line_tri_count() -> int {
    2 * (CIRCLE_SEGMENTS as int) + 2
}

/// The operations that push a segment's endpoints outward along its own
/// direction by half the weight, for the square cap.
pub open spec fn extend_ops(a: PointId, b: PointId, w: ScalarId, base: int) -> Seq<ScalarOp> {
    seq![
        ScalarOp::OfInt(2),
        ScalarOp::Div(w, sid(base)),
        ScalarOp::Sub(b.x, a.x),
        ScalarOp::Sub(b.y, a.y),
        ScalarOp::Atan2(sid(base + 3), sid(base + 2)),
        ScalarOp::Cos(sid(base + 4)),
        ScalarOp::Mul(sid(base + 1), sid(base + 5)),
        ScalarOp::Sin(sid(base + 4)),
        ScalarOp::Mul(sid(base + 1), sid(base + 7)),
        ScalarOp::Sub(a.x, sid(base + 6)),
        ScalarOp::Sub(a.y, sid(base + 8)),
        ScalarOp::Add(b.x, sid(base + 6)),
        ScalarOp::Add(b.y, sid(base + 8)),
    ]
}

pub open spec fn extended_a(base: int) -> PointId {
    PointId { x: sid(base + 9), y: sid(base + 10) }
}

pub open spec fn extended_b(base: int) -> PointId {
    PointId { x: sid(base + 11), y: sid(base + 12) }
}

/// Push a segment's endpoints outward along its direction by half the
/// weight each, lengthening the body instead of adding caps.
pub fn extend_line(t: &mut Tape, a: PointId, b: PointId, w: ScalarId) -> (r: (PointId, PointId))
    requires
        old(t).wf(),
        point_wf(a, old(t).len()),
        point_wf(b, old(t).len()),
        old(t).holds(w),
    ensures
        final(t).ops@ == old(t).ops@ + extend_ops(a, b, w, old(t).len()),
        r.0 == extended_a(old(t).len()),
        r.1 == extended_b(old(t).len()),
        final(t).wf(),
        point_wf(r.0, final(t).len()),
        point_wf(r.1, final(t).len()),
{
    let two = t.push_int(2);
    let hw = t.push_op(ScalarOp::Div(w, two));
    let dx = t.push_op(ScalarOp::Sub(b.x, a.x));
    let dy = t.push_op(ScalarOp::Sub(b.y, a.y));
    let dir = t.push_op(ScalarOp::Atan2(dy, dx));
    let cos = t.push_op(ScalarOp::Cos(dir));
    let ex = t.push_op(ScalarOp::Mul(hw, cos));
    let sin = t.push_op(ScalarOp::Sin(dir));
    let ey = t.push_op(ScalarOp::Mul(hw, sin));
    let ax = t.push_op(ScalarOp::Sub(a.x, ex));
    let ay = t.push_op(ScalarOp::Sub(a.y, ey));
    let bx = t.push_op(ScalarOp::Add(b.x, ex));
    let by = t.push_op(ScalarOp::Add(b.y, ey));
    proof {
        assert(t.ops@ =~= old(t).ops@ + extend_ops(a, b, w, old(t).len()));
    }
    (PointId { x: ax, y: ay }, PointId { x: bx, y: by })
}

/// The operations of a stroked segment under each cap.
pub open spec fn line_ops(a: PointId, b: PointId, w: ScalarId, cap: StrokeCap, base: int) -> Seq<
    ScalarOp,
> {
    match cap {
        StrokeCap::Butt => line_no_cap_ops(a, b, w, base),
        StrokeCap::Round => round_line_ops(a, b, w, base),
        StrokeCap::Square => extend_ops(a, b, w, base) + line_no_cap_ops(
            extended_a(base),
            extended_b(base),
            w,
            base + 13,
        ),
    }
}

/// The triangles of a stroked segment under each cap.
pub open spec fn line_tris(a: PointId, b: PointId, cap: StrokeCap, base: int) -> Seq<GlTriangle> {
    match cap {
        StrokeCap::Butt => line_no_cap_tris(base),
        StrokeCap::Round => round_line_tris(a, b, base),
        StrokeCap::Square => line_no_cap_tris(base + 13),
    }
}

/// Stroke a segment. Butt: the rectangle alone, two triangles over four
/// fresh corners and nothing at the endpoints. Round: a disc of
/// [`CIRCLE_SEGMENTS`] triangles at each endpoint, then the rectangle.
/// Square: the rectangle lengthened by half the weight at each end.
#[verifier::rlimit(100)]
pub fn line(t: &mut Tape, a: PointId, b: PointId, w: ScalarId, cap: StrokeCap) -> (r: Vec<
    GlTriangle,
>)
    requires
        old(t).wf(),
        point_wf(a, old(t).len()),
        point_wf(b, old(t).len()),
        old(t).holds(w),
    ensures
        final(t).ops@ == old(t).ops@ + line_ops(a, b, w, cap, old(t).len()),
        r@ == line_tris(a, b, cap, old(t).len()),
        cap == StrokeCap::Butt ==> r@.len() == 2,
        cap == StrokeCap::Round ==> r@.len() == 2 * CIRCLE_SEGMENTS + 2,
        cap == StrokeCap::Square ==> r@.len() == 2,
        final(t).wf(),
        tris_wf(r@, final(t).len()),
{
    let ghost base = old(t).len();
    match cap {
        StrokeCap::Butt => line_no_cap(t, a, b, w),
        StrokeCap::Round => {
            let two_a = t.push_int(2);
            let hw_a = t.push_op(ScalarOp::Div(w, two_a));
            let mut r = circle(t, a, hw_a, CIRCLE_SEGMENTS);
            let ghost ops1 = t.ops@;
            proof {
                lemma_ellipse_fan_ops_len(
                    a,
                    hw_a,
                    hw_a,
                    sid(base + 2 + 4),
                    CIRCLE_SEGMENTS as int,
                    base + 2 + 5,
                );
                assert(t.len() == base + circle_block_len());
            }
            let two_b = t.push_int(2);
            let hw_b = t.push_op(ScalarOp::Div(w, two_b));
            let mut cb = circle(t, b, hw_b, CIRCLE_SEGMENTS);
            let ghost ops2 = t.ops@;
            proof {
                lemma_ellipse_fan_ops_len(
                    b,
                    hw_b,
                    hw_b,
                    sid(base + circle_block_len() + 2 + 4),
                    CIRCLE_SEGMENTS as int,
                    base + circle_block_len() + 2 + 5,
                );
                assert(t.len() == base + 2 * circle_block_len());
            }
            let mut lb = line_no_cap(t, a, b, w);
            r.append(&mut cb);
            r.append(&mut lb);
            proof {
                lemma_round_line_len(a, b, w, base);
                assert(t.ops@ =~= old(t).ops@ + round_line_ops(a, b, w, base));
                assert(r@ =~= round_line_tris(a, b, base));
            }
            r
        },
        StrokeCap::Square => {
            let (ea, eb) = extend_line(t, a, b, w);
            let r = line_no_cap(t, ea, eb, w);
            proof {
                assert(t.ops@ =~= old(t).ops@ + line_ops(a, b, w, StrokeCap::Square, base));
            }
            r
        },
    }
}

/// The operations of a stroked point under each cap.
pub open spec fn point_ops(p: PointId, w: ScalarId, cap: StrokeCap, base: int) -> Seq<ScalarOp> {
    match cap {
        StrokeCap::Butt => Seq::<ScalarOp>::empty(),
        StrokeCap::Round => seq![ScalarOp::OfInt(2), ScalarOp::Div(w, sid(base))] + ellipse_ops(
            p,
            sid(base + 1),
            sid(base + 1),
            CIRCLE_SEGMENTS as int,
            base + 2,
        ),
        StrokeCap::Square => seq![
            ScalarOp::OfInt(2),
            ScalarOp::Div(w, sid(base)),
            ScalarOp::Sub(p.x, sid(base + 1)),
            ScalarOp::Sub(p.y, sid(base + 1)),
            ScalarOp::Add(p.x, sid(base + 1)),
            ScalarOp::Sub(p.y, sid(base + 1)),
            ScalarOp::Add(p.x, sid(base + 1)),
            ScalarOp::Add(p.y, sid(base + 1)),
            ScalarOp::Sub(p.x, sid(base + 1)),
            ScalarOp::Add(p.y, sid(base + 1)),
        ],
    }
}

/// The triangles of a stroked point under each cap.
pub open spec fn point_tris(p: PointId, cap: StrokeCap, base: int) -> Seq<GlTriangle> {
    match cap {
        StrokeCap::Butt => Seq::<GlTriangle>::empty(),
        StrokeCap::Round => ellipse_tris(p, CIRCLE_SEGMENTS as int, base + 2),
        StrokeCap::Square => quad_tris(
            PointId { x: sid(base + 2), y: sid(base + 3) },
            PointId { x: sid(base + 4), y: sid(base + 5) },
            PointId { x: sid(base + 6), y: sid(base + 7) },
            PointId { x: sid(base + 8), y: sid(base + 9) },
        ),
    }
}

/// Stroke a point. Butt: nothing, a zero-width point is invisible. Round:
/// a disc of radius half the weight. Square: an axis-aligned square of
/// side the weight, centered on the point.
pub fn point(t: &mut Tape, p: PointId, w: ScalarId, cap: StrokeCap) -> (r: Vec<GlTriangle>)
    requires
        old(t).wf(),
        point_wf(p, old(t).len()),
        old(t).holds(w),
    ensures
        final(t).ops@ == old(t).ops@ + point_ops(p, w, cap, old(t).len()),
        r@ == point_tris(p, cap, old(t).len()),
        cap == StrokeCap::Butt ==> r@.len() == 0,
        cap == StrokeCap::Round ==> r@.len() == CIRCLE_SEGMENTS,
        cap == StrokeCap::Square ==> r@.len() == 2,
        final(t).wf(),
        tris_wf(r@, final(t).len()),
{
    let ghost base = old(t).len();
    match cap {
        StrokeCap::Butt => {
            let r: Vec<GlTriangle> = Vec::new();
            proof {
                assert(t.ops@ =~= old(t).ops@ + point_ops(p, w, cap, base));
                assert(r@ =~= point_tris(p, cap, base));
            }
            r
        },
        StrokeCap::Round => {
            let two = t.push_int(2);
            let hw = t.push_op(ScalarOp::Div(w, two));
            let r = circle(t, p, hw, CIRCLE_SEGMENTS);
            proof {
                assert(t.ops@ =~= old(t).ops@ + point_ops(p, w, cap, base));
            }
            r
        },
        StrokeCap::Square => {
            let two = t.push_int(2);
            let hw = t.push_op(ScalarOp::Div(w, two));
            let q1x = t.push_op(ScalarOp::Sub(p.x, hw));
            let q1y = t.push_op(ScalarOp::Sub(p.y, hw));
            let q2x = t.push_op(ScalarOp::Add(p.x, hw));
            let q2y = t.push_op(ScalarOp::Sub(p.y, hw));
            let q3x = t.push_op(ScalarOp::Add(p.x, hw));
            let q3y = t.push_op(ScalarOp::Add(p.y, hw));
            let q4x = t.push_op(ScalarOp::Sub(p.x, hw));
            let q4y = t.push_op(ScalarOp::Add(p.y, hw));
            proof {
                assert(t.ops@ =~= old(t).ops@ + point_ops(p, w, cap, base));
            }
            let r = quad(
                PointId { x: q1x, y: q1y },
                PointId { x: q2x, y: q2y },
                PointId { x: q3x, y: q3y },
                PointId { x: q4x, y: q4y },
            );
            proof {
                assert(r@ =~= point_tris(p, cap, base));
            }
            r
        },
    }
}

/// The operations of stroking each edge in order, round-capped.
pub open spec fn stroke_ops(es: Seq<Edge>, w: ScalarId, base: int) -> Seq<ScalarOp>
    decreases es.len(),
{
    if es.len() == 0 {
        Seq::<ScalarOp>::empty()
    } else {
        stroke_ops(es.drop_last(), w, base) + round_line_ops(
            es.last().a,
            es.last().b,
            w,
            base + round_line_len() * (es.len() - 1),
        )
    }
}

/// The triangles of stroking each edge in order, round-capped.
pub open spec fn stroke_tris(es: Seq<Edge>, base: int) -> Seq<GlTriangle>
    decreases es.len(),
{
    if es.len() == 0 {
        Seq::<GlTriangle>::empty()
    } else {
        stroke_tris(es.drop_last(), base) + round_line_tris(
            es.last().a,
            es.last().b,
            base + round_line_len() * (es.len() - 1),
        )
    }
}

pub proof fn lemma_stroke_lens(es: Seq<Edge>, w: ScalarId, base: int)
    ensures
        stroke_ops(es, w, base).len() == round_line_len() * es.len(),
        stroke_tris(es, base).len() == round_line_tri_count() * es.len(),
    decreases es.len(),
{
    if es.len() > 0 {
        lemma_stroke_lens(es.drop_last(), w, base);
        lemma_round_line_len(
            es.last().a,
            es.last().b,
            w,
            base + round_line_len() * (es.len() - 1),
        );
        let n = es.len() as int;
        assert(round_line_len() * (n - 1) + round_line_len() == round_line_len() * n)
            by (nonlinear_arith);
        assert(round_line_tri_count() * (n - 1) + round_line_tri_count() == round_line_tri_count()
            * n) by (nonlinear_arith);
    }
}

/// Stroke a shape's boundary: each edge independently, with round caps at
/// its endpoints, in edge order. This is why every join renders round.
pub fn stroke(t: &mut Tape, edges: &Vec<Edge>, w: ScalarId) -> (r: Vec<GlTriangle>)
    requires
        old(t).wf(),
        edges_wf(edges@, old(t).len()),
        old(t).holds(w),
    ensures
        final(t).ops@ == old(t).ops@ + stroke_ops(edges@, w, old(t).len()),
        r@ == stroke_tris(edges@, old(t).len()),
        r@.len() == round_line_tri_count() * edges@.len(),
        final(t).wf(),
        tris_wf(r@, final(t).len()),
{
    let ghost base = old(t).len();
    let mut r: Vec<GlTriangle> = Vec::new();
    let n = edges.len();
    let mut i: usize = 0;
    while i < n
        invariant
            i <= n,
            n == edges@.len(),
            t.wf(),
            edges_wf(edges@, base),
            w.index < base,
            old(t).ops@.len() == base,
            t.ops@ == old(t).ops@ + stroke_ops(edges@.take(i as int), w, base),
            r@ == stroke_tris(edges@.take(i as int), base),
            r@.len() == round_line_tri_count() * i,
            tris_wf(r@, t.len()),
        decreases n - i,
    {
        let ghost pre = edges@.take(i as int);
        let ghost post = edges@.take(i as int + 1);
        proof {
            lemma_stroke_lens(pre, w, base);
            assert(t.len() == base + round_line_len() * (i as int));
            assert(post.drop_last() =~= pre);
            assert(post.last() == edges@[i as int]);
        }
        let e = edges[i];
        let mut tr = line(t, e.a, e.b, w, StrokeCap::Round);
        r.append(&mut tr);
        proof {
            assert(t.ops@ =~= old(t).ops@ + stroke_ops(post, w, base));
            assert(r@ =~= stroke_tris(post, base));
            lemma_stroke_lens(post, w, base);
            assert(round_line_tri_count() * (i as int) + round_line_tri_count()
                == round_line_tri_count() * (i as int + 1)) by (nonlinear_arith);
            assert forall|k: int| 0 <= k < r@.len() implies tri_wf(#[trigger] r@[k], t.len()) by {}
        }
        i = i + 1;
    }
    proof {
        assert(edges@.take(n as int) =~= edges@);
    }
    r
}

/// The chord edges of a full ellipse boundary: the same samples as the
/// fill fan, paired consecutively.
pub open spec fn ellipse_edge_list(n: int, fan_base: int) -> Seq<Edge>
    decreases n,
{
    if n <= 0 {
        Seq::<Edge>::empty()
    } else {
        ellipse_edge_list(n - 1, fan_base).push(
            Edge {
                a: sample_pt(fan_base + 16 * (n - 1) + 4),
                b: sample_pt(fan_base + 16 * (n - 1) + 10),
            },
        )
    }
}

/// Sample a full ellipse boundary into its chord edges. Appends the same
/// operations as the fill fan; only the pairing differs.
pub fn ellipse_edges(t: &mut Tape, center: PointId, rx: ScalarId, ry: ScalarId, segments: usize) -> (r: Vec<Edge>)
    requires
        old(t).wf(),
        point_wf(center, old(t).len()),
        old(t).holds(rx),
        old(t).holds(ry),
    ensures
        final(t).ops@ == old(t).ops@ + ellipse_ops(center, rx, ry, segments as int, old(t).len()),
        r@ == ellipse_edge_list(segments as int, old(t).len() + 5),
        r@.len() == segments,
        final(t).wf(),
        edges_wf(r@, final(t).len()),
{
    let ghost base = old(t).len();
    let two = t.push_int(2);
    let pi = t.push_op(ScalarOp::Pi);
    let tau = t.push_op(ScalarOp::Mul(two, pi));
    let segs = t.push_int(segments);
    let step = t.push_op(ScalarOp::Div(tau, segs));
    let ghost fan_base = base + 5;
    proof {
        assert(t.ops@ =~= old(t).ops@ + ellipse_setup_ops(segments as int, base));
    }
    let mut r: Vec<Edge> = Vec::new();
    let mut i: usize = 0;
    while i < segments
        invariant
            i <= segments,
            t.wf(),
            step.index == base + 4,
            fan_base == base + 5,
            point_wf(center, base),
            rx.index < base,
            ry.index < base,
            t.ops@ == old(t).ops@ + ellipse_setup_ops(segments as int, base) + ellipse_fan_ops(
                center,
                rx,
                ry,
                step,
                i as int,
                fan_base,
            ),
            old(t).ops@.len() == base,
            r@ == ellipse_edge_list(i as int, fan_base),
            r@.len() == i,
            edges_wf(r@, t.len()),
        decreases segments - i,
    {
        let ghost pre_ops = t.ops@;
        let ghost iter_base = fan_base + 16 * (i as int);
        proof {
            lemma_ellipse_fan_ops_len(center, rx, ry, step, i as int, fan_base);
            assert(t.len() == iter_base);
        }
        let ia = t.push_int(i);
        let aa = t.push_op(ScalarOp::Mul(ia, step));
        let ib = t.push_int(i + 1);
        let ab = t.push_op(ScalarOp::Mul(ib, step));
        let pa = push_sample(t, center, rx, ry, aa);
        let pb = push_sample(t, center, rx, ry, ab);
        proof {
            assert(t.ops@ =~= pre_ops + ellipse_iter_ops(center, rx, ry, step, i as int, iter_base));
            assert(ellipse_fan_ops(center, rx, ry, step, i as int + 1, fan_base) == ellipse_fan_ops(
                center,
                rx,
                ry,
                step,
                i as int,
                fan_base,
            ) + ellipse_iter_ops(center, rx, ry, step, i as int, iter_base));
            assert(t.ops@ =~= old(t).ops@ + ellipse_setup_ops(segments as int, base)
                + ellipse_fan_ops(center, rx, ry, step, i as int + 1, fan_base));
            assert(pa == sample_pt(iter_base + 4));
            assert(pb == sample_pt(iter_base + 10));
        }
        r.push(Edge { a: pa, b: pb });
        proof {
            assert(r@ =~= ellipse_edge_list(i as int + 1, fan_base));
            assert forall|k: int| 0 <= k < r@.len() implies edge_wf(#[trigger] r@[k], t.len()) by {}
        }
        i = i + 1;
    }
    r
}

/// The chord edges of an arc boundary: the same samples as the arc fan,
/// paired consecutively. The arc is not closed.
pub open spec fn arc_edge_list(n: int, fan_base: int) -> Seq<Edge>
    decreases n,
{
    if n <= 0 {
        Seq::<Edge>::empty()
    } else {
        arc_edge_list(n - 1, fan_base).push(
            Edge {
                a: sample_pt(fan_base + 18 * (n - 1) + 6),
                b: sample_pt(fan_base + 18 * (n - 1) + 12),
            },
        )
    }
}

/// Sample an arc boundary into its chord edges.
pub fn arc_edges(
    t: &mut Tape,
    center: PointId,
    rx: ScalarId,
    ry: ScalarId,
    start: ScalarId,
    end: ScalarId,
    segments: usize,
) -> (r: Vec<Edge>)
    requires
        old(t).wf(),
        point_wf(center, old(t).len()),
        old(t).holds(rx),
        old(t).holds(ry),
        old(t).holds(start),
        old(t).holds(end),
    ensures
        final(t).ops@ == old(t).ops@ + ellipse_arc_ops(
            center,
            rx,
            ry,
            start,
            end,
            segments as int,
            old(t).len(),
        ),
        r@ == arc_edge_list(segments as int, old(t).len() + 3),
        r@.len() == segments,
        final(t).wf(),
        edges_wf(r@, final(t).len()),
{
    let ghost base = old(t).len();
    let sweep = t.push_op(ScalarOp::Sub(end, start));
    let segs = t.push_int(segments);
    let step = t.push_op(ScalarOp::Div(sweep, segs));
    let ghost fan_base = base + 3;
    proof {
        assert(t.ops@ =~= old(t).ops@ + arc_setup_ops(start, end, segments as int, base));
    }
    let mut r: Vec<Edge> = Vec::new();
    let mut i: usize = 0;
    while i < segments
        invariant
            i <= segments,
            t.wf(),
            step.index == base + 2,
            fan_base == base + 3,
            point_wf(center, base),
            rx.index < base,
            ry.index < base,
            start.index < base,
            t.ops@ == old(t).ops@ + arc_setup_ops(start, end, segments as int, base) + arc_fan_ops(
                center,
                rx,
                ry,
                start,
                step,
                i as int,
                fan_base,
            ),
            old(t).ops@.len() == base,
            r@ == arc_edge_list(i as int, fan_base),
            r@.len() == i,
            edges_wf(r@, t.len()),
        decreases segments - i,
    {
        let ghost pre_ops = t.ops@;
        let ghost iter_base = fan_base + 18 * (i as int);
        proof {
            lemma_arc_fan_ops_len(center, rx, ry, start, step, i as int, fan_base);
            assert(t.len() == iter_base);
        }
        let ia = t.push_int(i);
        let ma = t.push_op(ScalarOp::Mul(ia, step));
        let aa = t.push_op(ScalarOp::Add(start, ma));
        let ib = t.push_int(i + 1);
        let mb = t.push_op(ScalarOp::Mul(ib, step));
        let ab = t.push_op(ScalarOp::Add(start, mb));
        let pa = push_sample(t, center, rx, ry, aa);
        let pb = push_sample(t, center, rx, ry, ab);
        proof {
            assert(t.ops@ =~= pre_ops + arc_iter_ops(center, rx, ry, start, step, i as int, iter_base));
            assert(arc_fan_ops(center, rx, ry, start, step, i as int + 1, fan_base) == arc_fan_ops(
                center,
                rx,
                ry,
                start,
                step,
                i as int,
                fan_base,
            ) + arc_iter_ops(center, rx, ry, start, step, i as int, iter_base));
            assert(t.ops@ =~= old(t).ops@ + arc_setup_ops(start, end, segments as int, base)
                + arc_fan_ops(center, rx, ry, start, step, i as int + 1, fan_base));
            assert(pa == sample_pt(iter_base + 6));
            assert(pb == sample_pt(iter_base + 12));
        }
        r.push(Edge { a: pa, b: pb });
        proof {
            assert(r@ =~= arc_edge_list(i as int + 1, fan_base));
            assert forall|k: int| 0 <= k < r@.len() implies edge_wf(#[trigger] r@[k], t.len()) by {}
        }
        i = i + 1;
    }
    r
}

/// A round-capped stroked segment is the butt-capped rectangle plus one
/// endpoint fan of [`CIRCLE_SEGMENTS`] triangles at each end: exactly
/// `2 * CIRCLE_SEGMENTS` extra triangles, the rectangle's two last.
pub proof fn lemma_round_cap_extra(a: PointId, b: PointId, w: ScalarId, base: int)
    ensures
        line_tris(a, b, StrokeCap::Round, base).len() == line_tris(a, b, StrokeCap::Butt, base).len()
            + 2 * CIRCLE_SEGMENTS,
        line_tris(a, b, StrokeCap::Butt, base).len() == 2,
        line_tris(a, b, StrokeCap::Round, base) == ellipse_tris(a, CIRCLE_SEGMENTS as int, base + 2)
            + ellipse_tris(b, CIRCLE_SEGMENTS as int, base + circle_block_len() + 2)
            + line_no_cap_tris(base + 2 * circle_block_len()),
{
    lemma_round_line_len(a, b, w, base);
}

/// A filled quad is exactly two triangles, and their corner set is exactly
/// the four corners handed in: the split adds no points.
pub proof fn lemma_quad_fill_points(a: PointId, b: PointId, c: PointId, d: PointId)
    ensures
        quad_tris(a, b, c, d).len() == 2,
        crate::mesh::mesh_points(quad_tris(a, b, c, d)) =~= set![a, b, c, d],
{
    let ts = quad_tris(a, b, c, d);
    assert(ts.last() == GlTriangle { a, b: c, c: d });
    assert(ts.drop_last() =~= seq![GlTriangle { a, b, c }]);
    let one = seq![GlTriangle { a, b, c }];
    assert(one.drop_last() =~= Seq::<GlTriangle>::empty());
    assert(one.last() == GlTriangle { a, b, c });
    assert(crate::mesh::mesh_points(Seq::<GlTriangle>::empty()) =~= Set::<PointId>::empty());
    assert(crate::mesh::mesh_points(one) =~= set![a, b, c]);
    assert(crate::mesh::mesh_points(ts) =~= set![a, b, c, d]);
}

} // verus!
