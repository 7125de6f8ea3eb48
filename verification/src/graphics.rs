//! The 2D canvas: style state, the retained frame buffer, and the
//! immediate-mode polygon protocol.
//!
//! Every drawing call reads the active [`StrokeSettings`], appends the
//! tessellated scalar arithmetic to the canvas tape, and pushes zero, one or
//! two colored batches (a fill pass and a stroke pass) onto the buffer.
//! The buffer is cleared only by [`GraphicsP2D::background`]; the
//! presentation step reads it without clearing, so it persists across
//! frames.

use vstd::prelude::*;

use crate::color::Color;
use crate::geometry::{Geometry, GeometryKind, GeometryVertex};
use crate::mesh::{
    colored, lemma_colored_wf, lemma_shapes_wf_mono, shapes_wf, GlShape, GlTriangle, PointId,
    Tessellate, Vertex,
};
use crate::scalar::{Scalar, ScalarOp, Tape};
use crate::settings::{default_stroke_settings, StrokeCap, StrokeJoin, StrokeSettings};
use crate::tess;
use crate::tess::{
    ellipse_edge_list, lemma_ellipse_fan_ops_len, lemma_stroke_lens, quad_tris, sid, Edge,
    CIRCLE_SEGMENTS,
};
use vstd::seq_lib::lemma_concat_associative;

verus! {

/// A misuse of the begin/vertex/end polygon protocol. The host treats
/// these as programmer errors and aborts; they are never recoverable
/// style or data errors.
#[derive(Debug, Clone, Copy, PartialEq, Eq, Structural)]
pub enum ProtocolViolation {
    /// `begin_shape` while a polygon is already open.
    AlreadyInShape,
    /// `vertex` or `end_shape` with no open polygon.
    NotInShape,
}

/// The point whose coordinates are the two tape literals at `base`.
pub open spec fn lit_pt(base: int) -> PointId {
    PointId { x: sid(base), y: sid(base + 1) }
}

/// The buffer grew by exactly one batch with this kind and vertex stream.
pub open spec fn appended1(
    pre: Seq<GlShape>,
    post: Seq<GlShape>,
    kind: GeometryKind,
    vs: Seq<Vertex>,
) -> bool {
    &&& post.len() == pre.len() + 1
    &&& post.subrange(0, pre.len() as int) == pre
    &&& post.last().kind == kind
    &&& post.last().vertices@ == vs
}

/// The buffer grew by exactly two batches: a fill pass then a stroke pass.
pub open spec fn appended2(
    pre: Seq<GlShape>,
    post: Seq<GlShape>,
    kind1: GeometryKind,
    vs1: Seq<Vertex>,
    kind2: GeometryKind,
    vs2: Seq<Vertex>,
) -> bool {
    &&& post.len() == pre.len() + 2
    &&& post.subrange(0, pre.len() as int) == pre
    &&& post[post.len() - 2].kind == kind1
    &&& post[post.len() - 2].vertices@ == vs1
    &&& post.last().kind == kind2
    &&& post.last().vertices@ == vs2
}

/// The operations of a stroked point call: the two coordinates and the
/// weight as literals, then the cap geometry.
pub open spec fn point_pass_ops(v: (Scalar, Scalar), w: Scalar, cap: StrokeCap, base: int) -> Seq<
    ScalarOp,
> {
    seq![ScalarOp::Lit(v.0), ScalarOp::Lit(v.1), ScalarOp::Lit(w)] + tess::point_ops(
        lit_pt(base),
        sid(base + 2),
        cap,
        base + 3,
    )
}

pub open spec fn point_pass_tris(cap: StrokeCap, base: int) -> Seq<GlTriangle> {
    tess::point_tris(lit_pt(base), cap, base + 3)
}

/// The operations of a stroked line call: the four coordinates and the
/// weight as literals, then the capped segment geometry.
pub open spec fn line_pass_ops(
    a: (Scalar, Scalar),
    b: (Scalar, Scalar),
    w: Scalar,
    cap: StrokeCap,
    base: int,
) -> Seq<ScalarOp> {
    seq![
        ScalarOp::Lit(a.0),
        ScalarOp::Lit(a.1),
        ScalarOp::Lit(b.0),
        ScalarOp::Lit(b.1),
        ScalarOp::Lit(w),
    ] + tess::line_ops(lit_pt(base), lit_pt(base + 2), sid(base + 4), cap, base + 5)
}

pub open spec fn line_pass_tris(cap: StrokeCap, base: int) -> Seq<GlTriangle> {
    tess::line_tris(lit_pt(base), lit_pt(base + 2), cap, base + 5)
}

/// The operations of the background rectangle: the origin and the canvas
/// sides as integer constants, then the two far corner coordinates.
pub open spec fn background_ops(width: u32, height: u32) -> Seq<ScalarOp> {
    seq![
        ScalarOp::OfInt(0),
        ScalarOp::OfInt(0),
        ScalarOp::OfInt(width as usize),
        ScalarOp::OfInt(height as usize),
        ScalarOp::Add(sid(0), sid(2)),
        ScalarOp::Add(sid(1), sid(3)),
    ]
}

/// The two triangles of the background rectangle.
pub open spec fn background_tris() -> Seq<GlTriangle> {
    quad_tris(
        PointId { x: sid(0), y: sid(1) },
        PointId { x: sid(4), y: sid(1) },
        PointId { x: sid(4), y: sid(5) },
        PointId { x: sid(0), y: sid(5) },
    )
}

/// The retained 2D canvas.
pub struct GraphicsP2D {
    /// The active style; affects only subsequently tessellated shapes.
    pub stroke_settings: StrokeSettings,
    /// The deferred scalar arithmetic of everything in the buffer.
    pub tape: Tape,
    /// The frame buffer: one entry per emitted pass since `background`.
    pub shapes: Vec<GlShape>,
    /// The open polygon, if `begin_shape` is pending its `end_shape`.
    pub geometry: Option<Geometry>,
}

impl GraphicsP2D {
    /// Every id in the buffer points at an entry of the tape.
    pub open spec fn wf(self) -> bool {
        self.tape.wf() && shapes_wf(self.shapes@, self.tape.len())
    }

    /// Whether a begin/vertex/end polygon is currently open.
    pub open spec fn spec_in_shape(self) -> bool {
        self.geometry is Some
    }
}

impl Default for GraphicsP2D {
    fn default() -> (g: GraphicsP2D)
        ensures
            g.wf(),
            g.stroke_settings == default_stroke_settings(),
            g.tape.ops@ == Seq::<ScalarOp>::empty(),
            g.shapes@ == Seq::<GlShape>::empty(),
            g.geometry is None,
    {
        GraphicsP2D {
            stroke_settings: Default::default(),
            tape: Tape::new(),
            shapes: Vec::new(),
            geometry: None,
        }
    }
}

impl GraphicsP2D {
    /// Set or disable the stroke color.
    pub fn stroke(&mut self, color: Option<Color>)
        ensures
            *final(self) == (GraphicsP2D {
                stroke_settings: StrokeSettings { stroke: color, ..old(self).stroke_settings },
                ..*old(self)
            }),
    {
        self.stroke_settings.stroke = color;
    }

    /// Set the stroke weight for subsequent strokes.
    pub fn stroke_weight(&mut self, weight: Scalar)
        ensures
            *final(self) == (GraphicsP2D {
                stroke_settings: StrokeSettings {
                    stroke_weight: weight,
                    ..old(self).stroke_settings
                },
                ..*old(self)
            }),
    {
        self.stroke_settings.stroke_weight = weight;
    }

    /// Set the cap drawn at open line and point endpoints.
    pub fn stroke_cap(&mut self, cap: StrokeCap)
        ensures
            *final(self) == (GraphicsP2D {
                stroke_settings: StrokeSettings { stroke_cap: cap, ..old(self).stroke_settings },
                ..*old(self)
            }),
    {
        self.stroke_settings.stroke_cap = cap;
    }

    /// Set the join style. Accepted but not honored: multi-edge shapes are
    /// stroked edge by edge with round caps, so joins render round.
    pub fn stroke_join(&mut self, join: StrokeJoin)
        ensures
            *final(self) == (GraphicsP2D {
                stroke_settings: StrokeSettings { stroke_join: join, ..old(self).stroke_settings },
                ..*old(self)
            }),
    {
        self.stroke_settings.stroke_join = join;
    }

    /// Set or disable the fill color.
    pub fn fill(&mut self, color: Option<Color>)
        ensures
            *final(self) == (GraphicsP2D {
                stroke_settings: StrokeSettings { fill: color, ..old(self).stroke_settings },
                ..*old(self)
            }),
    {
        self.stroke_settings.fill = color;
    }

    /// The finished batches of this frame. A read-only snapshot: the
    /// presentation step does not clear the buffer.
    pub fn shapes(&self) -> (r: &Vec<GlShape>)
        ensures
            r@ == self.shapes@,
    {
        &self.shapes
    }

    /// Clear the whole buffer, then fill the canvas rectangle with the
    /// given color. This is the only call that clears the buffer.
    pub fn background(&mut self, color: Color, width: u32, height: u32)
        ensures
            final(self).wf(),
            final(self).stroke_settings == old(self).stroke_settings,
            final(self).geometry == old(self).geometry,
            final(self).tape.ops@ == background_ops(width, height),
            final(self).shapes@.len() == 1,
            final(self).shapes@[0].kind == GeometryKind::Triangles,
            final(self).shapes@[0].vertices@ == colored(background_tris(), color),
    {
        self.shapes = Vec::new();
        self.tape = Tape::new();
        let x = self.tape.push_int(0);
        let y = self.tape.push_int(0);
        let w = self.tape.push_int(width as usize);
        let h = self.tape.push_int(height as usize);
        let xw = self.tape.push_op(ScalarOp::Add(x, w));
        let yh = self.tape.push_op(ScalarOp::Add(y, h));
        proof {
            assert(self.tape.ops@ =~= background_ops(width, height));
        }
        let tris = tess::quad(
            PointId { x, y },
            PointId { x: xw, y },
            PointId { x: xw, y: yh },
            PointId { x, y: yh },
        );
        proof {
            assert(tris@ =~= background_tris());
            assert(crate::mesh::tris_wf(tris@, self.tape.len()));
            lemma_colored_wf(tris@, color, self.tape.len());
        }
        let verts = Tessellate::new(tris).color(color);
        self.shapes.push(GlShape { kind: GeometryKind::Triangles, vertices: verts });
    }

    /// Draw a point with the active stroke style. No stroke color: nothing
    /// is emitted. Points have no fill pass.
    pub fn point(&mut self, vertex: (Scalar, Scalar))
        requires
            old(self).wf(),
        ensures
            final(self).wf(),
            final(self).stroke_settings == old(self).stroke_settings,
            final(self).geometry == old(self).geometry,
            match old(self).stroke_settings.stroke {
                None => final(self).tape.ops@ == old(self).tape.ops@ && final(self).shapes@ == old(
                    self,
                ).shapes@,
                Some(col) => {
                    &&& final(self).tape.ops@ == old(self).tape.ops@ + point_pass_ops(
                        vertex,
                        old(self).stroke_settings.stroke_weight,
                        old(self).stroke_settings.stroke_cap,
                        old(self).tape.len(),
                    )
                    &&& appended1(
                        old(self).shapes@,
                        final(self).shapes@,
                        GeometryKind::Triangles,
                        colored(
                            point_pass_tris(
                                old(self).stroke_settings.stroke_cap,
                                old(self).tape.len(),
                            ),
                            col,
                        ),
                    )
                },
            },
    {
        let st = self.stroke_settings;
        if let Some(col) = st.stroke {
            let ghost base = self.tape.len();
            let px = self.tape.push_lit(vertex.0);
            let py = self.tape.push_lit(vertex.1);
            let wid = self.tape.push_lit(st.stroke_weight);
            let tris = tess::point(&mut self.tape, PointId { x: px, y: py }, wid, st.stroke_cap);
            proof {
                assert(self.tape.ops@ =~= old(self).tape.ops@ + point_pass_ops(
                    vertex,
                    st.stroke_weight,
                    st.stroke_cap,
                    base,
                ));
                assert(tris@ == point_pass_tris(st.stroke_cap, base));
                lemma_colored_wf(tris@, col, self.tape.len());
                lemma_shapes_wf_mono(old(self).shapes@, old(self).tape.len(), self.tape.len());
            }
            let verts = Tessellate::new(tris).color(col);
            self.shapes.push(GlShape { kind: GeometryKind::Triangles, vertices: verts });
            proof {
                assert(self.shapes@.subrange(0, old(self).shapes@.len() as int) =~= old(
                    self,
                ).shapes@);
            }
        }
    }

    /// Draw a line between two points with the active stroke style and
    /// cap. No stroke color: nothing is emitted. Lines have no fill pass.
    pub fn line(&mut self, a: (Scalar, Scalar), b: (Scalar, Scalar))
        requires
            old(self).wf(),
        ensures
            final(self).wf(),
            final(self).stroke_settings == old(self).stroke_settings,
            final(self).geometry == old(self).geometry,
            match old(self).stroke_settings.stroke {
                None => final(self).tape.ops@ == old(self).tape.ops@ && final(self).shapes@ == old(
                    self,
                ).shapes@,
                Some(col) => {
                    &&& final(self).tape.ops@ == old(self).tape.ops@ + line_pass_ops(
                        a,
                        b,
                        old(self).stroke_settings.stroke_weight,
                        old(self).stroke_settings.stroke_cap,
                        old(self).tape.len(),
                    )
                    &&& appended1(
                        old(self).shapes@,
                        final(self).shapes@,
                        GeometryKind::Triangles,
                        colored(
                            line_pass_tris(
                                old(self).stroke_settings.stroke_cap,
                                old(self).tape.len(),
                            ),
                            col,
                        ),
                    )
                },
            },
    {
        let st = self.stroke_settings;
        if let Some(col) = st.stroke {
            let ghost base = self.tape.len();
            let ax = self.tape.push_lit(a.0);
            let ay = self.tape.push_lit(a.1);
            let bx = self.tape.push_lit(b.0);
            let by = self.tape.push_lit(b.1);
            let wid = self.tape.push_lit(st.stroke_weight);
            let tris = tess::line(
                &mut self.tape,
                PointId { x: ax, y: ay },
                PointId { x: bx, y: by },
                wid,
                st.stroke_cap,
            );
            proof {
                assert(self.tape.ops@ =~= old(self).tape.ops@ + line_pass_ops(
                    a,
                    b,
                    st.stroke_weight,
                    st.stroke_cap,
                    base,
                ));
                assert(tris@ == line_pass_tris(st.stroke_cap, base));
                lemma_colored_wf(tris@, col, self.tape.len());
                lemma_shapes_wf_mono(old(self).shapes@, old(self).tape.len(), self.tape.len());
            }
            let verts = Tessellate::new(tris).color(col);
            self.shapes.push(GlShape { kind: GeometryKind::Triangles, vertices: verts });
            proof {
                assert(self.shapes@.subrange(0, old(self).shapes@.len() as int) =~= old(
                    self,
                ).shapes@);
            }
        }
    }
}

/// The six coordinate literals of a triangle call.
pub open spec fn tri_pts_ops(a: (Scalar, Scalar), b: (Scalar, Scalar), c: (Scalar, Scalar)) -> Seq<
    ScalarOp,
> {
    seq![
        ScalarOp::Lit(a.0),
        ScalarOp::Lit(a.1),
        ScalarOp::Lit(b.0),
        ScalarOp::Lit(b.1),
        ScalarOp::Lit(c.0),
        ScalarOp::Lit(c.1),
    ]
}

/// The fill pass of a triangle: exactly the one triangle, corners in
/// caller order, no winding normalization.
pub open spec fn tri_fill_tris(base: int) -> Seq<GlTriangle> {
    seq![GlTriangle { a: lit_pt(base), b: lit_pt(base + 2), c: lit_pt(base + 4) }]
}

/// The boundary edges of a triangle: consecutive corner pairs, wrapping
/// last back to first.
pub open spec fn tri_edges(base: int) -> Seq<Edge> {
    seq![
        Edge { a: lit_pt(base), b: lit_pt(base + 2) },
        Edge { a: lit_pt(base + 2), b: lit_pt(base + 4) },
        Edge { a: lit_pt(base + 4), b: lit_pt(base) },
    ]
}

/// The stroke pass of a triangle: fresh corner literals, the weight, and
/// each boundary edge stroked round-capped.
pub open spec fn tri_stroke_ops(
    a: (Scalar, Scalar),
    b: (Scalar, Scalar),
    c: (Scalar, Scalar),
    w: Scalar,
    base: int,
) -> Seq<ScalarOp> {
    tri_pts_ops(a, b, c) + seq![ScalarOp::Lit(w)] + tess::stroke_ops(
        tri_edges(base),
        sid(base + 6),
        base + 7,
    )
}

pub open spec fn tri_stroke_tris(base: int) -> Seq<GlTriangle> {
    tess::stroke_tris(tri_edges(base), base + 7)
}

/// The corner block of a rectangle call: origin and sides as literals,
/// then the two far coordinates. Corners run clockwise from the origin.
pub open spec fn rect_pts_ops(x: Scalar, y: Scalar, w: Scalar, h: Scalar, base: int) -> Seq<
    ScalarOp,
> {
    seq![
        ScalarOp::Lit(x),
        ScalarOp::Lit(y),
        ScalarOp::Lit(w),
        ScalarOp::Lit(h),
        ScalarOp::Add(sid(base), sid(base + 2)),
        ScalarOp::Add(sid(base + 1), sid(base + 3)),
    ]
}

pub open spec fn rect_corner_a(base: int) -> PointId {
    PointId { x: sid(base), y: sid(base + 1) }
}

pub open spec fn rect_corner_b(base: int) -> PointId {
    PointId { x: sid(base + 4), y: sid(base + 1) }
}

pub open spec fn rect_corner_c(base: int) -> PointId {
    PointId { x: sid(base + 4), y: sid(base + 5) }
}

pub open spec fn rect_corner_d(base: int) -> PointId {
    PointId { x: sid(base), y: sid(base + 5) }
}

/// The fill pass of a rectangle: the quad split into two triangles; the
/// vertex set is exactly the four corners.
pub open spec fn rect_fill_tris(base: int) -> Seq<GlTriangle> {
    quad_tris(rect_corner_a(base), rect_corner_b(base), rect_corner_c(base), rect_corner_d(base))
}

pub open spec fn rect_edges(base: int) -> Seq<Edge> {
    seq![
        Edge { a: rect_corner_a(base), b: rect_corner_b(base) },
        Edge { a: rect_corner_b(base), b: rect_corner_c(base) },
        Edge { a: rect_corner_c(base), b: rect_corner_d(base) },
        Edge { a: rect_corner_d(base), b: rect_corner_a(base) },
    ]
}

pub open spec fn rect_stroke_ops(x: Scalar, y: Scalar, w: Scalar, h: Scalar, wt: Scalar, base: int) -> Seq<ScalarOp> {
    rect_pts_ops(x, y, w, h, base) + seq![ScalarOp::Lit(wt)] + tess::stroke_ops(
        rect_edges(base),
        sid(base + 6),
        base + 7,
    )
}

pub open spec fn rect_stroke_tris(base: int) -> Seq<GlTriangle> {
    tess::stroke_tris(rect_edges(base), base + 7)
}

/// How many operations a full-ellipse sampling takes at the canvas's fan
/// resolution.
pub open spec fn fan_ops_len() -> int {
    5 + 16 * (CIRCLE_SEGMENTS as int)
}

/// How many operations an arc sampling takes at the canvas's fan
/// resolution.
pub open spec fn arc_ops_len() -> int {
    3 + 18 * (CIRCLE_SEGMENTS as int)
}

/// The fill pass of an ellipse call: center and axes as literals, then
/// the fan sampling.
pub open spec fn ellipse_fill_ops(x: Scalar, y: Scalar, w: Scalar, h: Scalar, base: int) -> Seq<
    ScalarOp,
> {
    seq![ScalarOp::Lit(x), ScalarOp::Lit(y), ScalarOp::Lit(w), ScalarOp::Lit(h)]
        + tess::ellipse_ops(lit_pt(base), sid(base + 2), sid(base + 3), CIRCLE_SEGMENTS as int, base + 4)
}

pub open spec fn ellipse_fill_tris(base: int) -> Seq<GlTriangle> {
    tess::ellipse_tris(lit_pt(base), CIRCLE_SEGMENTS as int, base + 4)
}

/// The stroke pass of an ellipse call: fresh literals, the boundary
/// sampled into chords, the weight, then each chord stroked round-capped.
pub open spec fn ellipse_stroke_ops(x: Scalar, y: Scalar, w: Scalar, h: Scalar, wt: Scalar, base: int) -> Seq<ScalarOp> {
    seq![ScalarOp::Lit(x), ScalarOp::Lit(y), ScalarOp::Lit(w), ScalarOp::Lit(h)]
        + tess::ellipse_ops(lit_pt(base), sid(base + 2), sid(base + 3), CIRCLE_SEGMENTS as int, base + 4)
        + seq![ScalarOp::Lit(wt)] + tess::stroke_ops(
        ellipse_edge_list(CIRCLE_SEGMENTS as int, base + 9),
        sid(base + 4 + fan_ops_len()),
        base + 5 + fan_ops_len(),
    )
}

pub open spec fn ellipse_stroke_tris(base: int) -> Seq<GlTriangle> {
    tess::stroke_tris(ellipse_edge_list(CIRCLE_SEGMENTS as int, base + 9), base + 5 + fan_ops_len())
}

/// The fill pass of an arc call: center, axes and both angles as
/// literals, then the arc fan sampling.
pub open spec fn arc_fill_ops(
    x: Scalar,
    y: Scalar,
    w: Scalar,
    h: Scalar,
    start: Scalar,
    stop: Scalar,
    base: int,
) -> Seq<ScalarOp> {
    seq![
        ScalarOp::Lit(x),
        ScalarOp::Lit(y),
        ScalarOp::Lit(w),
        ScalarOp::Lit(h),
        ScalarOp::Lit(start),
        ScalarOp::Lit(stop),
    ] + tess::ellipse_arc_ops(
        lit_pt(base),
        sid(base + 2),
        sid(base + 3),
        sid(base + 4),
        sid(base + 5),
        CIRCLE_SEGMENTS as int,
        base + 6,
    )
}

pub open spec fn arc_fill_tris(base: int) -> Seq<GlTriangle> {
    tess::ellipse_arc_tris(lit_pt(base), CIRCLE_SEGMENTS as int, base + 6)
}

/// The stroke pass of an arc call: fresh literals, the open chord list,
/// the weight, then each chord stroked round-capped.
pub open spec fn arc_stroke_ops(
    x: Scalar,
    y: Scalar,
    w: Scalar,
    h: Scalar,
    start: Scalar,
    stop: Scalar,
    wt: Scalar,
    base: int,
) -> Seq<ScalarOp> {
    seq![
        ScalarOp::Lit(x),
        ScalarOp::Lit(y),
        ScalarOp::Lit(w),
        ScalarOp::Lit(h),
        ScalarOp::Lit(start),
        ScalarOp::Lit(stop),
    ] + tess::ellipse_arc_ops(
        lit_pt(base),
        sid(base + 2),
        sid(base + 3),
        sid(base + 4),
        sid(base + 5),
        CIRCLE_SEGMENTS as int,
        base + 6,
    ) + seq![ScalarOp::Lit(wt)] + tess::stroke_ops(
        tess::arc_edge_list(CIRCLE_SEGMENTS as int, base + 9),
        sid(base + 6 + arc_ops_len()),
        base + 7 + arc_ops_len(),
    )
}

pub open spec fn arc_stroke_tris(base: int) -> Seq<GlTriangle> {
    tess::stroke_tris(tess::arc_edge_list(CIRCLE_SEGMENTS as int, base + 9), base + 7 + arc_ops_len())
}

impl GraphicsP2D {
    /// Draw a triangle: a fill pass of the one triangle if a fill color is
    /// active, then a stroke pass of its three round-capped edges if a
    /// stroke color is active.
    pub fn triangle(&mut self, a: (Scalar, Scalar), b: (Scalar, Scalar), c: (Scalar, Scalar))
        requires
            old(self).wf(),
        ensures
            final(self).wf(),
            final(self).stroke_settings == old(self).stroke_settings,
            final(self).geometry == old(self).geometry,
            ({
                let base = old(self).tape.len();
                let wt = old(self).stroke_settings.stroke_weight;
                match (old(self).stroke_settings.fill, old(self).stroke_settings.stroke) {
                    (None, None) => final(self).tape.ops@ == old(self).tape.ops@ && final(self).shapes@ == old(self).shapes@,
                    (Some(f), None) => {
                        &&& final(self).tape.ops@ == old(self).tape.ops@ + tri_pts_ops(a, b, c)
                        &&& appended1(
                            old(self).shapes@,
                            final(self).shapes@,
                            GeometryKind::Triangles,
                            colored(tri_fill_tris(base), f),
                        )
                    },
                    (None, Some(s)) => {
                        &&& final(self).tape.ops@ == old(self).tape.ops@ + tri_stroke_ops(
                            a,
                            b,
                            c,
                            wt,
                            base,
                        )
                        &&& appended1(
                            old(self).shapes@,
                            final(self).shapes@,
                            GeometryKind::Triangles,
                            colored(tri_stroke_tris(base), s),
                        )
                    },
                    (Some(f), Some(s)) => {
                        &&& final(self).tape.ops@ == old(self).tape.ops@ + tri_pts_ops(a, b, c)
                            + tri_stroke_ops(a, b, c, wt, base + 6)
                        &&& appended2(
                            old(self).shapes@,
                            final(self).shapes@,
                            GeometryKind::Triangles,
                            colored(tri_fill_tris(base), f),
                            GeometryKind::Triangles,
                            colored(tri_stroke_tris(base + 6), s),
                        )
                    },
                }
            }),
    {
        let st = self.stroke_settings;
        if let Some(f) = st.fill {
            let ghost base = self.tape.len();
            let ax = self.tape.push_lit(a.0);
            let ay = self.tape.push_lit(a.1);
            let bx = self.tape.push_lit(b.0);
            let by = self.tape.push_lit(b.1);
            let cx = self.tape.push_lit(c.0);
            let cy = self.tape.push_lit(c.1);
            let tri = tess::triangle(
                PointId { x: ax, y: ay },
                PointId { x: bx, y: by },
                PointId { x: cx, y: cy },
            );
            let mut tris: Vec<GlTriangle> = Vec::new();
            tris.push(tri);
            proof {
                assert(self.tape.ops@ =~= old(self).tape.ops@ + tri_pts_ops(a, b, c));
                assert(tris@ =~= tri_fill_tris(base));
                lemma_colored_wf(tris@, f, self.tape.len());
                lemma_shapes_wf_mono(old(self).shapes@, old(self).tape.len(), self.tape.len());
            }
            let verts = Tessellate::new(tris).color(f);
            self.shapes.push(GlShape { kind: GeometryKind::Triangles, vertices: verts });
            proof {
                assert(self.shapes@.subrange(0, old(self).shapes@.len() as int) =~= old(
                    self,
                ).shapes@);
            }
        }
        let ghost mid_tape = self.tape.ops@;
        let ghost mid_shapes = self.shapes@;
        if let Some(s) = st.stroke {
            let ghost base = self.tape.len();
            let ax = self.tape.push_lit(a.0);
            let ay = self.tape.push_lit(a.1);
            let bx = self.tape.push_lit(b.0);
            let by = self.tape.push_lit(b.1);
            let cx = self.tape.push_lit(c.0);
            let cy = self.tape.push_lit(c.1);
            let p1 = PointId { x: ax, y: ay };
            let p2 = PointId { x: bx, y: by };
            let p3 = PointId { x: cx, y: cy };
            let mut edges: Vec<Edge> = Vec::new();
            edges.push(Edge { a: p1, b: p2 });
            edges.push(Edge { a: p2, b: p3 });
            edges.push(Edge { a: p3, b: p1 });
            let ghost lits6 = seq![
                ScalarOp::Lit(a.0),
                ScalarOp::Lit(a.1),
                ScalarOp::Lit(b.0),
                ScalarOp::Lit(b.1),
                ScalarOp::Lit(c.0),
                ScalarOp::Lit(c.1),
            ];
            let wid = self.tape.push_lit(st.stroke_weight);
            let ghost wseq = seq![ScalarOp::Lit(st.stroke_weight)];
            proof {
                assert(edges@ =~= tri_edges(base));
                assert(self.tape.ops@ =~= mid_tape + (lits6 + wseq));
            }
            let tris = tess::stroke(&mut self.tape, &edges, wid);
            proof {
                let sops = tess::stroke_ops(tri_edges(base), sid(base + 6), base + 7);
                lemma_concat_associative(mid_tape, lits6 + wseq, sops);
                assert(lits6 + wseq + sops =~= tri_stroke_ops(a, b, c, st.stroke_weight, base));
                assert(self.tape.ops@ == mid_tape + tri_stroke_ops(a, b, c, st.stroke_weight, base));
                assert(tris@ == tri_stroke_tris(base));
                lemma_colored_wf(tris@, s, self.tape.len());
                lemma_shapes_wf_mono(mid_shapes, mid_tape.len() as int, self.tape.len());
            }
            let verts = Tessellate::new(tris).color(s);
            self.shapes.push(GlShape { kind: GeometryKind::Triangles, vertices: verts });
            proof {
                assert(self.shapes@.subrange(0, mid_shapes.len() as int) =~= mid_shapes);
                assert(self.shapes@.subrange(0, old(self).shapes@.len() as int) =~= old(
                    self,
                ).shapes@);
            }
        }
    }

    /// Push the four corners of an axis-aligned rectangle.
    fn push_rect_corners(&mut self, x: Scalar, y: Scalar, w: Scalar, h: Scalar) -> (r: (
        PointId,
        PointId,
        PointId,
        PointId,
    ))
        requires
            old(self).wf(),
        ensures
            final(self).tape.ops@ == old(self).tape.ops@ + rect_pts_ops(
                x,
                y,
                w,
                h,
                old(self).tape.len(),
            ),
            r.0 == rect_corner_a(old(self).tape.len()),
            r.1 == rect_corner_b(old(self).tape.len()),
            r.2 == rect_corner_c(old(self).tape.len()),
            r.3 == rect_corner_d(old(self).tape.len()),
            final(self).tape.wf(),
            final(self).shapes@ == old(self).shapes@,
            final(self).stroke_settings == old(self).stroke_settings,
            final(self).geometry == old(self).geometry,
    {
        let xi = self.tape.push_lit(x);
        let yi = self.tape.push_lit(y);
        let wi = self.tape.push_lit(w);
        let hi = self.tape.push_lit(h);
        let xw = self.tape.push_op(ScalarOp::Add(xi, wi));
        let yh = self.tape.push_op(ScalarOp::Add(yi, hi));
        proof {
            assert(self.tape.ops@ =~= old(self).tape.ops@ + rect_pts_ops(
                x,
                y,
                w,
                h,
                old(self).tape.len(),
            ));
        }
        (
            PointId { x: xi, y: yi },
            PointId { x: xw, y: yi },
            PointId { x: xw, y: yh },
            PointId { x: xi, y: yh },
        )
    }

    /// Draw an axis-aligned rectangle from its origin and sides: a fill
    /// pass of two triangles over exactly the four corners if a fill color
    /// is active, then a stroke pass of the four round-capped edges if a
    /// stroke color is active.
    #[verifier::rlimit(100)]
    pub fn rect(&mut self, x: Scalar, y: Scalar, width: Scalar, height: Scalar)
        requires
            old(self).wf(),
        ensures
            final(self).wf(),
            final(self).stroke_settings == old(self).stroke_settings,
            final(self).geometry == old(self).geometry,
            ({
                let base = old(self).tape.len();
                let wt = old(self).stroke_settings.stroke_weight;
                match (old(self).stroke_settings.fill, old(self).stroke_settings.stroke) {
                    (None, None) => final(self).tape.ops@ == old(self).tape.ops@ && final(self).shapes@ == old(self).shapes@,
                    (Some(f), None) => {
                        &&& final(self).tape.ops@ == old(self).tape.ops@ + rect_pts_ops(
                            x,
                            y,
                            width,
                            height,
                            base,
                        )
                        &&& appended1(
                            old(self).shapes@,
                            final(self).shapes@,
                            GeometryKind::Triangles,
                            colored(rect_fill_tris(base), f),
                        )
                    },
                    (None, Some(s)) => {
                        &&& final(self).tape.ops@ == old(self).tape.ops@ + rect_stroke_ops(
                            x,
                            y,
                            width,
                            height,
                            wt,
                            base,
                        )
                        &&& appended1(
                            old(self).shapes@,
                            final(self).shapes@,
                            GeometryKind::Triangles,
                            colored(rect_stroke_tris(base), s),
                        )
                    },
                    (Some(f), Some(s)) => {
                        &&& final(self).tape.ops@ == old(self).tape.ops@ + rect_pts_ops(
                            x,
                            y,
                            width,
                            height,
                            base,
                        ) + rect_stroke_ops(x, y, width, height, wt, base + 6)
                        &&& appended2(
                            old(self).shapes@,
                            final(self).shapes@,
                            GeometryKind::Triangles,
                            colored(rect_fill_tris(base), f),
                            GeometryKind::Triangles,
                            colored(rect_stroke_tris(base + 6), s),
                        )
                    },
                }
            }),
    {
        let st = self.stroke_settings;
        if let Some(f) = st.fill {
            let ghost base = self.tape.len();
            let (pa, pb, pc, pd) = self.push_rect_corners(x, y, width, height);
            let tris = tess::quad(pa, pb, pc, pd);
            proof {
                assert(tris@ == rect_fill_tris(base));
                lemma_colored_wf(tris@, f, self.tape.len());
                lemma_shapes_wf_mono(old(self).shapes@, old(self).tape.len(), self.tape.len());
            }
            let verts = Tessellate::new(tris).color(f);
            self.shapes.push(GlShape { kind: GeometryKind::Triangles, vertices: verts });
            proof {
                assert(self.shapes@.subrange(0, old(self).shapes@.len() as int) =~= old(
                    self,
                ).shapes@);
            }
        }
        let ghost mid_tape = self.tape.ops@;
        let ghost mid_shapes = self.shapes@;
        if let Some(s) = st.stroke {
            let ghost base = self.tape.len();
            let (pa, pb, pc, pd) = self.push_rect_corners(x, y, width, height);
            let mut edges: Vec<Edge> = Vec::new();
            edges.push(Edge { a: pa, b: pb });
            edges.push(Edge { a: pb, b: pc });
            edges.push(Edge { a: pc, b: pd });
            edges.push(Edge { a: pd, b: pa });
            let ghost corner_ops = rect_pts_ops(x, y, width, height, base);
            let wid = self.tape.push_lit(st.stroke_weight);
            let ghost wseq = seq![ScalarOp::Lit(st.stroke_weight)];
            proof {
                assert(edges@ =~= rect_edges(base));
                assert(self.tape.ops@ =~= mid_tape + (corner_ops + wseq));
            }
            let tris = tess::stroke(&mut self.tape, &edges, wid);
            proof {
                let sops = tess::stroke_ops(rect_edges(base), sid(base + 6), base + 7);
                lemma_concat_associative(mid_tape, corner_ops + wseq, sops);
                assert(corner_ops + wseq + sops =~= rect_stroke_ops(
                    x,
                    y,
                    width,
                    height,
                    st.stroke_weight,
                    base,
                ));
                assert(self.tape.ops@ == mid_tape + rect_stroke_ops(
                    x,
                    y,
                    width,
                    height,
                    st.stroke_weight,
                    base,
                ));
                assert(tris@ == rect_stroke_tris(base));
                lemma_colored_wf(tris@, s, self.tape.len());
                lemma_shapes_wf_mono(mid_shapes, mid_tape.len() as int, self.tape.len());
            }
            let verts = Tessellate::new(tris).color(s);
            self.shapes.push(GlShape { kind: GeometryKind::Triangles, vertices: verts });
            proof {
                assert(self.shapes@.subrange(0, mid_shapes.len() as int) =~= mid_shapes);
                assert(self.shapes@.subrange(0, old(self).shapes@.len() as int) =~= old(
                    self,
                ).shapes@);
            }
        }
    }

    /// Draw an ellipse from its center and axes: a fill fan of
    /// [`CIRCLE_SEGMENTS`] triangles if a fill color is active, then a
    /// stroke pass of the round-capped boundary chords if a stroke color
    /// is active.
    #[verifier::rlimit(100)]
    pub fn ellipse(&mut self, x: Scalar, y: Scalar, width: Scalar, height: Scalar)
        requires
            old(self).wf(),
        ensures
            final(self).wf(),
            final(self).stroke_settings == old(self).stroke_settings,
            final(self).geometry == old(self).geometry,
            ({
                let base = old(self).tape.len();
                let wt = old(self).stroke_settings.stroke_weight;
                match (old(self).stroke_settings.fill, old(self).stroke_settings.stroke) {
                    (None, None) => final(self).tape.ops@ == old(self).tape.ops@ && final(self).shapes@ == old(self).shapes@,
                    (Some(f), None) => {
                        &&& final(self).tape.ops@ == old(self).tape.ops@ + ellipse_fill_ops(
                            x,
                            y,
                            width,
                            height,
                            base,
                        )
                        &&& appended1(
                            old(self).shapes@,
                            final(self).shapes@,
                            GeometryKind::Triangles,
                            colored(ellipse_fill_tris(base), f),
                        )
                    },
                    (None, Some(s)) => {
                        &&& final(self).tape.ops@ == old(self).tape.ops@ + ellipse_stroke_ops(
                            x,
                            y,
                            width,
                            height,
                            wt,
                            base,
                        )
                        &&& appended1(
                            old(self).shapes@,
                            final(self).shapes@,
                            GeometryKind::Triangles,
                            colored(ellipse_stroke_tris(base), s),
                        )
                    },
                    (Some(f), Some(s)) => {
                        &&& final(self).tape.ops@ == old(self).tape.ops@ + ellipse_fill_ops(
                            x,
                            y,
                            width,
                            height,
                            base,
                        ) + ellipse_stroke_ops(x, y, width, height, wt, base + 4 + fan_ops_len())
                        &&& appended2(
                            old(self).shapes@,
                            final(self).shapes@,
                            GeometryKind::Triangles,
                            colored(ellipse_fill_tris(base), f),
                            GeometryKind::Triangles,
                            colored(ellipse_stroke_tris(base + 4 + fan_ops_len()), s),
                        )
                    },
                }
            }),
    {
        let st = self.stroke_settings;
        if let Some(f) = st.fill {
            let ghost base = self.tape.len();
            let cx = self.tape.push_lit(x);
            let cy = self.tape.push_lit(y);
            let rx = self.tape.push_lit(width);
            let ry = self.tape.push_lit(height);
            let ghost lits4 = seq![
                ScalarOp::Lit(x),
                ScalarOp::Lit(y),
                ScalarOp::Lit(width),
                ScalarOp::Lit(height),
            ];
            proof {
                assert(self.tape.ops@ =~= old(self).tape.ops@ + lits4);
            }
            let tris = tess::ellipse(
                &mut self.tape,
                PointId { x: cx, y: cy },
                rx,
                ry,
                CIRCLE_SEGMENTS,
            );
            proof {
                let eops = tess::ellipse_ops(
                    lit_pt(base),
                    sid(base + 2),
                    sid(base + 3),
                    CIRCLE_SEGMENTS as int,
                    base + 4,
                );
                lemma_concat_associative(old(self).tape.ops@, lits4, eops);
                assert(self.tape.ops@ == old(self).tape.ops@ + ellipse_fill_ops(
                    x,
                    y,
                    width,
                    height,
                    base,
                ));
                assert(tris@ == ellipse_fill_tris(base));
                assert(tris@ == ellipse_fill_tris(base));
                lemma_ellipse_fan_ops_len(
                    lit_pt(base),
                    sid(base + 2),
                    sid(base + 3),
                    sid(base + 4 + 4),
                    CIRCLE_SEGMENTS as int,
                    base + 4 + 5,
                );
                assert(self.tape.len() == base + 4 + fan_ops_len());
                lemma_colored_wf(tris@, f, self.tape.len());
                lemma_shapes_wf_mono(old(self).shapes@, old(self).tape.len(), self.tape.len());
            }
            let verts = Tessellate::new(tris).color(f);
            self.shapes.push(GlShape { kind: GeometryKind::Triangles, vertices: verts });
            proof {
                assert(self.shapes@.subrange(0, old(self).shapes@.len() as int) =~= old(self).shapes@);
            }
        }
        let ghost mid_tape = self.tape.ops@;
        let ghost mid_shapes = self.shapes@;
        if let Some(s) = st.stroke {
            let ghost base = self.tape.len();
            let cx = self.tape.push_lit(x);
            let cy = self.tape.push_lit(y);
            let rx = self.tape.push_lit(width);
            let ry = self.tape.push_lit(height);
            let ghost lits4 = seq![
                ScalarOp::Lit(x),
                ScalarOp::Lit(y),
                ScalarOp::Lit(width),
                ScalarOp::Lit(height),
            ];
            proof {
                assert(self.tape.ops@ =~= mid_tape + lits4);
            }
            let edges = tess::ellipse_edges(
                &mut self.tape,
                PointId { x: cx, y: cy },
                rx,
                ry,
                CIRCLE_SEGMENTS,
            );
            let ghost eops = tess::ellipse_ops(
                lit_pt(base),
                sid(base + 2),
                sid(base + 3),
                CIRCLE_SEGMENTS as int,
                base + 4,
            );
            proof {
                lemma_ellipse_fan_ops_len(
                    PointId { x: cx, y: cy },
                    rx,
                    ry,
                    sid(base + 4 + 4),
                    CIRCLE_SEGMENTS as int,
                    base + 4 + 5,
                );
                assert(self.tape.len() == base + 4 + fan_ops_len());
                lemma_concat_associative(mid_tape, lits4, eops);
            }
            let wid = self.tape.push_lit(st.stroke_weight);
            let ghost wseq = seq![ScalarOp::Lit(st.stroke_weight)];
            proof {
                assert(self.tape.ops@ =~= (mid_tape + (lits4 + eops)) + wseq);
                lemma_concat_associative(mid_tape, lits4 + eops, wseq);
                assert forall|k: int| 0 <= k < edges@.len() implies tess::edge_wf(
                    #[trigger] edges@[k],
                    self.tape.len(),
                ) by {
                    assert(tess::edge_wf(edges@[k], base + 4 + fan_ops_len()));
                }
            }
            let tris = tess::stroke(&mut self.tape, &edges, wid);
            proof {
                let sops = tess::stroke_ops(
                    ellipse_edge_list(CIRCLE_SEGMENTS as int, base + 9),
                    sid(base + 4 + fan_ops_len()),
                    base + 5 + fan_ops_len(),
                );
                lemma_concat_associative(mid_tape, lits4 + eops + wseq, sops);
                assert(lits4 + eops + wseq + sops =~= ellipse_stroke_ops(
                    x,
                    y,
                    width,
                    height,
                    st.stroke_weight,
                    base,
                ));
                assert(self.tape.ops@ == mid_tape + ellipse_stroke_ops(
                    x,
                    y,
                    width,
                    height,
                    st.stroke_weight,
                    base,
                ));
                assert(tris@ == ellipse_stroke_tris(base));
                assert(tris@ == ellipse_stroke_tris(base));
                lemma_colored_wf(tris@, s, self.tape.len());
                lemma_shapes_wf_mono(mid_shapes, mid_tape.len() as int, self.tape.len());
            }
            let verts = Tessellate::new(tris).color(s);
            self.shapes.push(GlShape { kind: GeometryKind::Triangles, vertices: verts });
            proof {
                assert(self.shapes@.subrange(0, mid_shapes.len() as int) =~= mid_shapes);
                assert(self.shapes@.subrange(0, old(self).shapes@.len() as int) =~= old(self).shapes@);
            }
        }
    }

    /// Draw an elliptic arc from its center, axes and the two angles in
    /// radians, sweeping counter-clockwise from start to end. The arc is
    /// not closed: no chord connects the end back to the start.
    #[verifier::rlimit(100)]
    pub fn ellipse_arc(
        &mut self,
        x: Scalar,
        y: Scalar,
        width: Scalar,
        height: Scalar,
        start: Scalar,
        stop: Scalar,
    )
        requires
            old(self).wf(),
        ensures
            final(self).wf(),
            final(self).stroke_settings == old(self).stroke_settings,
            final(self).geometry == old(self).geometry,
            ({
                let base = old(self).tape.len();
                let wt = old(self).stroke_settings.stroke_weight;
                match (old(self).stroke_settings.fill, old(self).stroke_settings.stroke) {
                    (None, None) => final(self).tape.ops@ == old(self).tape.ops@ && final(self).shapes@ == old(self).shapes@,
                    (Some(f), None) => {
                        &&& final(self).tape.ops@ == old(self).tape.ops@ + arc_fill_ops(
                            x,
                            y,
                            width,
                            height,
                            start,
                            stop,
                            base,
                        )
                        &&& appended1(
                            old(self).shapes@,
                            final(self).shapes@,
                            GeometryKind::Triangles,
                            colored(arc_fill_tris(base), f),
                        )
                    },
                    (None, Some(s)) => {
                        &&& final(self).tape.ops@ == old(self).tape.ops@ + arc_stroke_ops(
                            x,
                            y,
                            width,
                            height,
                            start,
                            stop,
                            wt,
                            base,
                        )
                        &&& appended1(
                            old(self).shapes@,
                            final(self).shapes@,
                            GeometryKind::Triangles,
                            colored(arc_stroke_tris(base), s),
                        )
                    },
                    (Some(f), Some(s)) => {
                        &&& final(self).tape.ops@ == old(self).tape.ops@ + arc_fill_ops(
                            x,
                            y,
                            width,
                            height,
                            start,
                            stop,
                            base,
                        ) + arc_stroke_ops(
                            x,
                            y,
                            width,
                            height,
                            start,
                            stop,
                            wt,
                            base + 6 + arc_ops_len(),
                        )
                        &&& appended2(
                            old(self).shapes@,
                            final(self).shapes@,
                            GeometryKind::Triangles,
                            colored(arc_fill_tris(base), f),
                            GeometryKind::Triangles,
                            colored(arc_stroke_tris(base + 6 + arc_ops_len()), s),
                        )
                    },
                }
            }),
    {
        let st = self.stroke_settings;
        if let Some(f) = st.fill {
            let ghost base = self.tape.len();
            let cx = self.tape.push_lit(x);
            let cy = self.tape.push_lit(y);
            let rx = self.tape.push_lit(width);
            let ry = self.tape.push_lit(height);
            let sa = self.tape.push_lit(start);
            let ea = self.tape.push_lit(stop);
            let ghost lits6 = seq![
                ScalarOp::Lit(x),
                ScalarOp::Lit(y),
                ScalarOp::Lit(width),
                ScalarOp::Lit(height),
                ScalarOp::Lit(start),
                ScalarOp::Lit(stop),
            ];
            proof {
                assert(self.tape.ops@ =~= old(self).tape.ops@ + lits6);
            }
            let tris = tess::ellipse_arc(
                &mut self.tape,
                PointId { x: cx, y: cy },
                rx,
                ry,
                sa,
                ea,
                CIRCLE_SEGMENTS,
            );
            proof {
                let eops = tess::ellipse_arc_ops(
                    lit_pt(base),
                    sid(base + 2),
                    sid(base + 3),
                    sid(base + 4),
                    sid(base + 5),
                    CIRCLE_SEGMENTS as int,
                    base + 6,
                );
                lemma_concat_associative(old(self).tape.ops@, lits6, eops);
                assert(self.tape.ops@ == old(self).tape.ops@ + arc_fill_ops(
                    x,
                    y,
                    width,
                    height,
                    start,
                    stop,
                    base,
                ));
                assert(tris@ == arc_fill_tris(base));
                tess::lemma_arc_fan_ops_len(
                    lit_pt(base),
                    sid(base + 2),
                    sid(base + 3),
                    sid(base + 4),
                    sid(base + 6 + 2),
                    CIRCLE_SEGMENTS as int,
                    base + 6 + 3,
                );
                assert(self.tape.len() == base + 6 + arc_ops_len());
                lemma_colored_wf(tris@, f, self.tape.len());
                lemma_shapes_wf_mono(old(self).shapes@, old(self).tape.len(), self.tape.len());
            }
            let verts = Tessellate::new(tris).color(f);
            self.shapes.push(GlShape { kind: GeometryKind::Triangles, vertices: verts });
            proof {
                assert(self.shapes@.subrange(0, old(self).shapes@.len() as int) =~= old(self).shapes@);
            }
        }
        let ghost mid_tape = self.tape.ops@;
        let ghost mid_shapes = self.shapes@;
        if let Some(s) = st.stroke {
            let ghost base = self.tape.len();
            let cx = self.tape.push_lit(x);
            let cy = self.tape.push_lit(y);
            let rx = self.tape.push_lit(width);
            let ry = self.tape.push_lit(height);
            let sa = self.tape.push_lit(start);
            let ea = self.tape.push_lit(stop);
            let ghost lits6 = seq![
                ScalarOp::Lit(x),
                ScalarOp::Lit(y),
                ScalarOp::Lit(width),
                ScalarOp::Lit(height),
                ScalarOp::Lit(start),
                ScalarOp::Lit(stop),
            ];
            proof {
                assert(self.tape.ops@ =~= mid_tape + lits6);
            }
            let edges = tess::arc_edges(
                &mut self.tape,
                PointId { x: cx, y: cy },
                rx,
                ry,
                sa,
                ea,
                CIRCLE_SEGMENTS,
            );
            let ghost eops = tess::ellipse_arc_ops(
                lit_pt(base),
                sid(base + 2),
                sid(base + 3),
                sid(base + 4),
                sid(base + 5),
                CIRCLE_SEGMENTS as int,
                base + 6,
            );
            proof {
                tess::lemma_arc_fan_ops_len(
                    PointId { x: cx, y: cy },
                    rx,
                    ry,
                    sa,
                    sid(base + 6 + 2),
                    CIRCLE_SEGMENTS as int,
                    base + 6 + 3,
                );
                assert(self.tape.len() == base + 6 + arc_ops_len());
                lemma_concat_associative(mid_tape, lits6, eops);
            }
            let wid = self.tape.push_lit(st.stroke_weight);
            let ghost wseq = seq![ScalarOp::Lit(st.stroke_weight)];
            proof {
                assert(self.tape.ops@ =~= (mid_tape + (lits6 + eops)) + wseq);
                lemma_concat_associative(mid_tape, lits6 + eops, wseq);
                assert forall|k: int| 0 <= k < edges@.len() implies tess::edge_wf(
                    #[trigger] edges@[k],
                    self.tape.len(),
                ) by {
                    assert(tess::edge_wf(edges@[k], base + 6 + arc_ops_len()));
                }
            }
            let tris = tess::stroke(&mut self.tape, &edges, wid);
            proof {
                let sops = tess::stroke_ops(
                    tess::arc_edge_list(CIRCLE_SEGMENTS as int, base + 9),
                    sid(base + 6 + arc_ops_len()),
                    base + 7 + arc_ops_len(),
                );
                lemma_concat_associative(mid_tape, lits6 + eops + wseq, sops);
                assert(lits6 + eops + wseq + sops =~= arc_stroke_ops(
                    x,
                    y,
                    width,
                    height,
                    start,
                    stop,
                    st.stroke_weight,
                    base,
                ));
                assert(self.tape.ops@ == mid_tape + arc_stroke_ops(
                    x,
                    y,
                    width,
                    height,
                    start,
                    stop,
                    st.stroke_weight,
                    base,
                ));
                assert(tris@ == arc_stroke_tris(base));
                lemma_colored_wf(tris@, s, self.tape.len());
                lemma_shapes_wf_mono(mid_shapes, mid_tape.len() as int, self.tape.len());
            }
            let verts = Tessellate::new(tris).color(s);
            self.shapes.push(GlShape { kind: GeometryKind::Triangles, vertices: verts });
            proof {
                assert(self.shapes@.subrange(0, mid_shapes.len() as int) =~= mid_shapes);
                assert(self.shapes@.subrange(0, old(self).shapes@.len() as int) =~= old(self).shapes@);
            }
        }
    }

    /// Draw a square: a rectangle with both sides equal.
    pub fn square(&mut self, x: Scalar, y: Scalar, size: Scalar)
        requires
            old(self).wf(),
        ensures
            final(self).wf(),
            final(self).stroke_settings == old(self).stroke_settings,
            final(self).geometry == old(self).geometry,
            ({
                let base = old(self).tape.len();
                let wt = old(self).stroke_settings.stroke_weight;
                match (old(self).stroke_settings.fill, old(self).stroke_settings.stroke) {
                    (None, None) => final(self).tape.ops@ == old(self).tape.ops@ && final(self).shapes@ == old(self).shapes@,
                    (Some(f), None) => {
                        &&& final(self).tape.ops@ == old(self).tape.ops@ + rect_pts_ops(
                            x,
                            y,
                            size,
                            size,
                            base,
                        )
                        &&& appended1(
                            old(self).shapes@,
                            final(self).shapes@,
                            GeometryKind::Triangles,
                            colored(rect_fill_tris(base), f),
                        )
                    },
                    (None, Some(s)) => {
                        &&& final(self).tape.ops@ == old(self).tape.ops@ + rect_stroke_ops(
                            x,
                            y,
                            size,
                            size,
                            wt,
                            base,
                        )
                        &&& appended1(
                            old(self).shapes@,
                            final(self).shapes@,
                            GeometryKind::Triangles,
                            colored(rect_stroke_tris(base), s),
                        )
                    },
                    (Some(f), Some(s)) => {
                        &&& final(self).tape.ops@ == old(self).tape.ops@ + rect_pts_ops(
                            x,
                            y,
                            size,
                            size,
                            base,
                        ) + rect_stroke_ops(x, y, size, size, wt, base + 6)
                        &&& appended2(
                            old(self).shapes@,
                            final(self).shapes@,
                            GeometryKind::Triangles,
                            colored(rect_fill_tris(base), f),
                            GeometryKind::Triangles,
                            colored(rect_stroke_tris(base + 6), s),
                        )
                    },
                }
            }),
    {
        self.rect(x, y, size, size)
    }

    /// Draw a circle: an ellipse with both axes equal to the diameter.
    #[verifier::rlimit(100)]
    pub fn circle(&mut self, x: Scalar, y: Scalar, diameter: Scalar)
        requires
            old(self).wf(),
        ensures
            final(self).wf(),
            final(self).stroke_settings == old(self).stroke_settings,
            final(self).geometry == old(self).geometry,
            ({
                let base = old(self).tape.len();
                let wt = old(self).stroke_settings.stroke_weight;
                match (old(self).stroke_settings.fill, old(self).stroke_settings.stroke) {
                    (None, None) => final(self).tape.ops@ == old(self).tape.ops@ && final(self).shapes@ == old(self).shapes@,
                    (Some(f), None) => {
                        &&& final(self).tape.ops@ == old(self).tape.ops@ + ellipse_fill_ops(
                            x,
                            y,
                            diameter,
                            diameter,
                            base,
                        )
                        &&& appended1(
                            old(self).shapes@,
                            final(self).shapes@,
                            GeometryKind::Triangles,
                            colored(ellipse_fill_tris(base), f),
                        )
                    },
                    (None, Some(s)) => {
                        &&& final(self).tape.ops@ == old(self).tape.ops@ + ellipse_stroke_ops(
                            x,
                            y,
                            diameter,
                            diameter,
                            wt,
                            base,
                        )
                        &&& appended1(
                            old(self).shapes@,
                            final(self).shapes@,
                            GeometryKind::Triangles,
                            colored(ellipse_stroke_tris(base), s),
                        )
                    },
                    (Some(f), Some(s)) => {
                        &&& final(self).tape.ops@ == old(self).tape.ops@ + ellipse_fill_ops(
                            x,
                            y,
                            diameter,
                            diameter,
                            base,
                        ) + ellipse_stroke_ops(
                            x,
                            y,
                            diameter,
                            diameter,
                            wt,
                            base + 4 + fan_ops_len(),
                        )
                        &&& appended2(
                            old(self).shapes@,
                            final(self).shapes@,
                            GeometryKind::Triangles,
                            colored(ellipse_fill_tris(base), f),
                            GeometryKind::Triangles,
                            colored(ellipse_stroke_tris(base + 4 + fan_ops_len()), s),
                        )
                    },
                }
            }),
    {
        self.ellipse(x, y, diameter, diameter)
    }

    /// Draw a circular arc: an elliptic arc with both axes equal to the
    /// radius.
    #[verifier::rlimit(100)]
    pub fn arc(&mut self, x: Scalar, y: Scalar, radius: Scalar, start: Scalar, stop: Scalar)
        requires
            old(self).wf(),
        ensures
            final(self).wf(),
            final(self).stroke_settings == old(self).stroke_settings,
            final(self).geometry == old(self).geometry,
            ({
                let base = old(self).tape.len();
                let wt = old(self).stroke_settings.stroke_weight;
                match (old(self).stroke_settings.fill, old(self).stroke_settings.stroke) {
                    (None, None) => final(self).tape.ops@ == old(self).tape.ops@ && final(self).shapes@ == old(self).shapes@,
                    (Some(f), None) => {
                        &&& final(self).tape.ops@ == old(self).tape.ops@ + arc_fill_ops(
                            x,
                            y,
                            radius,
                            radius,
                            start,
                            stop,
                            base,
                        )
                        &&& appended1(
                            old(self).shapes@,
                            final(self).shapes@,
                            GeometryKind::Triangles,
                            colored(arc_fill_tris(base), f),
                        )
                    },
                    (None, Some(s)) => {
                        &&& final(self).tape.ops@ == old(self).tape.ops@ + arc_stroke_ops(
                            x,
                            y,
                            radius,
                            radius,
                            start,
                            stop,
                            wt,
                            base,
                        )
                        &&& appended1(
                            old(self).shapes@,
                            final(self).shapes@,
                            GeometryKind::Triangles,
                            colored(arc_stroke_tris(base), s),
                        )
                    },
                    (Some(f), Some(s)) => {
                        &&& final(self).tape.ops@ == old(self).tape.ops@ + arc_fill_ops(
                            x,
                            y,
                            radius,
                            radius,
                            start,
                            stop,
                            base,
                        ) + arc_stroke_ops(
                            x,
                            y,
                            radius,
                            radius,
                            start,
                            stop,
                            wt,
                            base + 6 + arc_ops_len(),
                        )
                        &&& appended2(
                            old(self).shapes@,
                            final(self).shapes@,
                            GeometryKind::Triangles,
                            colored(arc_fill_tris(base), f),
                            GeometryKind::Triangles,
                            colored(arc_stroke_tris(base + 6 + arc_ops_len()), s),
                        )
                    },
                }
            }),
    {
        self.ellipse_arc(x, y, radius, radius, start, stop)
    }

    /// Open an immediate-mode polygon. Fails if one is already open: that
    /// is a protocol violation the host treats as fatal.
    pub fn begin_shape(&mut self, kind: GeometryKind) -> (r: Result<(), ProtocolViolation>)
        ensures
            r is Ok <==> !old(self).spec_in_shape(),
            r is Err ==> *final(self) == *old(self) && r == Err::<(), ProtocolViolation>(
                ProtocolViolation::AlreadyInShape,
            ),
            r is Ok ==> {
                &&& final(self).geometry is Some
                &&& final(self).geometry->0.kind == kind
                &&& final(self).geometry->0.vertices@ == Seq::<GeometryVertex>::empty()
                &&& final(self).stroke_settings == old(self).stroke_settings
                &&& final(self).tape == old(self).tape
                &&& final(self).shapes@ == old(self).shapes@
            },
    {
        if self.geometry.is_some() {
            return Err(ProtocolViolation::AlreadyInShape);
        }
        self.geometry = Some(Geometry::new(kind));
        Ok(())
    }

    /// Append a vertex record to the open polygon, stamped with the active
    /// fill, stroke and weight. Fails if no polygon is open: that is a
    /// protocol violation the host treats as fatal.
    pub fn vertex(&mut self, vertex: (Scalar, Scalar)) -> (r: Result<(), ProtocolViolation>)
        ensures
            r is Ok <==> old(self).spec_in_shape(),
            r is Err ==> *final(self) == *old(self) && r == Err::<(), ProtocolViolation>(
                ProtocolViolation::NotInShape,
            ),
            r is Ok ==> {
                &&& final(self).geometry is Some
                &&& final(self).geometry->0.kind == old(self).geometry->0.kind
                &&& final(self).geometry->0.vertices@ == old(self).geometry->0.vertices@.push(
                    GeometryVertex {
                        x: vertex.0,
                        y: vertex.1,
                        fill: old(self).stroke_settings.fill,
                        stroke: old(self).stroke_settings.stroke,
                        stroke_weight: old(self).stroke_settings.stroke_weight,
                    },
                )
                &&& final(self).stroke_settings == old(self).stroke_settings
                &&& final(self).tape == old(self).tape
                &&& final(self).shapes@ == old(self).shapes@
            },
    {
        let st = self.stroke_settings;
        match self.geometry {
            Some(ref mut geometry) => {
                geometry.push_vertex(
                    GeometryVertex::new(vertex.0, vertex.1, st.fill, st.stroke, st.stroke_weight),
                );
                Ok(())
            },
            None => Err(ProtocolViolation::NotInShape),
        }
    }
}

/// The fill color of one polygon record: its own fill, or fully
/// transparent black when it has none.
pub open spec fn record_fill_color(v: GeometryVertex) -> Color {
    match v.fill {
        Some(c) => c,
        None => Color { red: 0u8, green: 0u8, blue: 0u8, alpha: 0u8 },
    }
}

/// The coordinate literals of the polygon records, two per record.
pub open spec fn poly_ops(vs: Seq<GeometryVertex>) -> Seq<ScalarOp>
    decreases vs.len(),
{
    if vs.len() == 0 {
        Seq::<ScalarOp>::empty()
    } else {
        poly_ops(vs.drop_last()) + seq![
            ScalarOp::Lit(vs.last().x),
            ScalarOp::Lit(vs.last().y),
        ]
    }
}

pub proof fn lemma_poly_ops_len(vs: Seq<GeometryVertex>)
    ensures
        poly_ops(vs).len() == 2 * vs.len(),
    decreases vs.len(),
{
    if vs.len() > 0 {
        lemma_poly_ops_len(vs.drop_last());
    }
}

/// The fill pass of the polygon: each record at its literal point,
/// colored with its own fill.
pub open spec fn poly_fill_verts(vs: Seq<GeometryVertex>, base: int) -> Seq<Vertex>
    decreases vs.len(),
{
    if vs.len() == 0 {
        Seq::<Vertex>::empty()
    } else {
        poly_fill_verts(vs.drop_last(), base).push(
            Vertex {
                x: sid(base + 2 * (vs.len() - 1)),
                y: sid(base + 2 * (vs.len() - 1) + 1),
                color: record_fill_color(vs.last()),
            },
        )
    }
}

/// The stroke operations of one boundary edge: nothing when its first
/// record carries no stroke, else that record's weight and the edge
/// stroked round-capped from its point to the next record's point,
/// wrapping the last edge back to the first point.
pub open spec fn poly_edge_ops(vs: Seq<GeometryVertex>, i: int, base_pts: int, at: int) -> Seq<
    ScalarOp,
> {
    match vs[i].stroke {
        Some(_) => seq![ScalarOp::Lit(vs[i].stroke_weight)] + tess::round_line_ops(
            lit_pt(base_pts + 2 * i),
            lit_pt(base_pts + 2 * ((i + 1) % (vs.len() as int))),
            sid(at),
            at + 1,
        ),
        None => Seq::<ScalarOp>::empty(),
    }
}

/// The stroke operations of the first `k` boundary edges, concatenated.
pub open spec fn poly_stroke_ops(vs: Seq<GeometryVertex>, k: int, base_pts: int, s0: int) -> Seq<
    ScalarOp,
>
    decreases k,
{
    if k <= 0 {
        Seq::<ScalarOp>::empty()
    } else {
        let pre = poly_stroke_ops(vs, k - 1, base_pts, s0);
        pre + poly_edge_ops(vs, k - 1, base_pts, s0 + pre.len())
    }
}

/// The stroke vertices of the first `k` boundary edges, each edge colored
/// with its first record's stroke color.
pub open spec fn poly_stroke_verts(vs: Seq<GeometryVertex>, k: int, base_pts: int, s0: int) -> Seq<
    Vertex,
>
    decreases k,
{
    if k <= 0 {
        Seq::<Vertex>::empty()
    } else {
        let pre = poly_stroke_ops(vs, k - 1, base_pts, s0);
        poly_stroke_verts(vs, k - 1, base_pts, s0) + (match vs[k - 1].stroke {
            Some(c) => colored(
                tess::round_line_tris(
                    lit_pt(base_pts + 2 * (k - 1)),
                    lit_pt(base_pts + 2 * (k % (vs.len() as int))),
                    s0 + pre.len() + 1,
                ),
                c,
            ),
            None => Seq::<Vertex>::empty(),
        })
    }
}

impl GraphicsP2D {
    /// Close the open polygon and tessellate it: a fill pass of the
    /// records colored with their own fills, kept under the polygon's
    /// geometry kind for the backend, then a stroke pass of the boundary
    /// edges, each stroked round-capped with its first record's stroke
    /// color and weight, wrapping the last record back to the first.
    /// Fails if no polygon is open: that is a protocol violation the host
    /// treats as fatal.
    pub fn end_shape(&mut self) -> (r: Result<(), ProtocolViolation>)
        requires
            old(self).wf(),
        ensures
            r is Ok <==> old(self).spec_in_shape(),
            r is Err ==> *final(self) == *old(self) && r == Err::<(), ProtocolViolation>(
                ProtocolViolation::NotInShape,
            ),
            r is Ok ==> ({
                let vs = old(self).geometry->0.vertices@;
                let base = old(self).tape.len();
                let s0 = base + 2 * vs.len();
                &&& final(self).wf()
                &&& final(self).geometry is None
                &&& final(self).stroke_settings == old(self).stroke_settings
                &&& final(self).tape.ops@ == old(self).tape.ops@ + poly_ops(vs) + poly_stroke_ops(
                    vs,
                    vs.len() as int,
                    base,
                    s0,
                )
                &&& appended2(
                    old(self).shapes@,
                    final(self).shapes@,
                    old(self).geometry->0.kind,
                    poly_fill_verts(vs, base),
                    GeometryKind::Triangles,
                    poly_stroke_verts(vs, vs.len() as int, base, s0),
                )
            }),
    {
        let mut taken: Option<Geometry> = None;
        core::mem::swap(&mut self.geometry, &mut taken);
        let g = match taken {
            None => {
                return Err(ProtocolViolation::NotInShape);
            },
            Some(g) => g,
        };
        let ghost vs = g.vertices@;
        let ghost base = old(self).tape.len();
        let ghost pre_ops = old(self).tape.ops@;
        let n = g.vertices.len();
        let mut pts: Vec<PointId> = Vec::new();
        let mut fill_verts: Vec<Vertex> = Vec::new();
        let mut i: usize = 0;
        while i < n
            invariant
                i <= n,
                n == vs.len(),
                vs == g.vertices@,
                self.tape.wf(),
                self.tape.ops@ == pre_ops + poly_ops(vs.take(i as int)),
                pre_ops.len() == base,
                pts@.len() == i,
                forall|k: int| 0 <= k < i ==> (#[trigger] pts@[k]).x.index == base + 2 * k
                    && pts@[k].y.index == base + 2 * k + 1,
                fill_verts@ == poly_fill_verts(vs.take(i as int), base),
                crate::mesh::vertices_wf(fill_verts@, self.tape.len()),
                self.shapes@ == old(self).shapes@,
                self.stroke_settings == old(self).stroke_settings,
                self.geometry is None,
                shapes_wf(self.shapes@, base),
            decreases n - i,
        {
            proof {
                lemma_poly_ops_len(vs.take(i as int));
                assert(self.tape.len() == base + 2 * (i as int));
            }
            let v = g.vertices[i];
            let px = self.tape.push_lit(v.x);
            let py = self.tape.push_lit(v.y);
            pts.push(PointId { x: px, y: py });
            let col = match v.fill {
                Some(c) => c,
                None => Color { red: 0, green: 0, blue: 0, alpha: 0 },
            };
            fill_verts.push(Vertex { x: px, y: py, color: col });
            proof {
                let pre = vs.take(i as int);
                let post = vs.take(i as int + 1);
                assert(post.drop_last() =~= pre);
                assert(post.last() == vs[i as int]);
                assert(self.tape.ops@ =~= pre_ops + poly_ops(post));
                assert(fill_verts@ =~= poly_fill_verts(post, base));
            }
            i = i + 1;
        }
        proof {
            assert(vs.take(n as int) =~= vs);
            lemma_poly_ops_len(vs);
            assert(self.tape.len() == base + 2 * (n as int));
        }
        proof {
            lemma_shapes_wf_mono(self.shapes@, base, self.tape.len());
        }
        let kind = g.kind;
        self.shapes.push(GlShape { kind, vertices: fill_verts });
        proof {
            assert(self.shapes@.subrange(0, old(self).shapes@.len() as int) =~= old(self).shapes@);
        }
        let ghost s0 = base + 2 * (n as int);
        let ghost mid_ops = self.tape.ops@;
        let ghost mid_shapes = self.shapes@;
        let mut stroke_verts: Vec<Vertex> = Vec::new();
        let mut i: usize = 0;
        while i < n
            invariant
                i <= n,
                n == vs.len(),
                vs == g.vertices@,
                self.tape.wf(),
                mid_ops.len() == s0,
                s0 == base + 2 * (n as int),
                self.tape.ops@ == mid_ops + poly_stroke_ops(vs, i as int, base, s0),
                pts@.len() == n,
                forall|k: int| 0 <= k < n ==> (#[trigger] pts@[k]).x.index == base + 2 * k
                    && pts@[k].y.index == base + 2 * k + 1,
                stroke_verts@ == poly_stroke_verts(vs, i as int, base, s0),
                crate::mesh::vertices_wf(stroke_verts@, self.tape.len()),
                self.shapes@ == mid_shapes,
                self.stroke_settings == old(self).stroke_settings,
                self.geometry is None,
                shapes_wf(self.shapes@, self.tape.len()),
            decreases n - i,
        {
            let ghost pre_sops = poly_stroke_ops(vs, i as int, base, s0);
            let v = g.vertices[i];
            if let Some(scol) = v.stroke {
                let wid = self.tape.push_lit(v.stroke_weight);
                let ghost at = s0 + pre_sops.len();
                proof {
                    assert(wid == sid(at));
                }
                let j = if i + 1 == n {
                    0
                } else {
                    i + 1
                };
                proof {
                    if i + 1 == n {
                        assert((i as int + 1) % (n as int) == 0) by (nonlinear_arith)
                            requires i as int + 1 == n as int, n as int > 0;
                    } else {
                        assert((i as int + 1) % (n as int) == i as int + 1) by (nonlinear_arith)
                            requires 0 <= i as int + 1 < n as int;
                    }
                }
                let pa = pts[i];
                let pb = pts[j];
                proof {
                    assert(crate::mesh::point_wf(pa, self.tape.len()));
                    assert(crate::mesh::point_wf(pb, self.tape.len()));
                    assert(pa == lit_pt(base + 2 * (i as int)));
                    assert(pb == lit_pt(base + 2 * ((i as int + 1) % (n as int))));
                }
                let tr = tess::line(&mut self.tape, pa, pb, wid, StrokeCap::Round);
                proof {
                    let wseq = seq![ScalarOp::Lit(v.stroke_weight)];
                    let rlops = tess::round_line_ops(pa, pb, wid, at + 1);
                    assert((mid_ops + pre_sops).push(ScalarOp::Lit(v.stroke_weight)) =~= (mid_ops
                        + pre_sops) + wseq);
                    assert(self.tape.ops@ == ((mid_ops + pre_sops) + wseq) + rlops);
                    lemma_concat_associative(mid_ops + pre_sops, wseq, rlops);
                    assert(wseq + rlops =~= poly_edge_ops(vs, i as int, base, at));
                    lemma_concat_associative(mid_ops, pre_sops, wseq + rlops);
                    assert(self.tape.ops@ == mid_ops + poly_stroke_ops(
                        vs,
                        i as int + 1,
                        base,
                        s0,
                    ));
                    assert(tr@ == tess::round_line_tris(pa, pb, at + 1));
                    lemma_colored_wf(tr@, scol, self.tape.len());
                }
                let mut cv = Tessellate::new(tr).color(scol);
                stroke_verts.append(&mut cv);
                proof {
                    assert(stroke_verts@ =~= poly_stroke_verts(vs, i as int + 1, base, s0));
                    assert forall|k: int| 0 <= k < stroke_verts@.len() implies crate::mesh::vertex_wf(
                        #[trigger] stroke_verts@[k],
                        self.tape.len(),
                    ) by {}
                    lemma_shapes_wf_mono(self.shapes@, at, self.tape.len());
                }
            } else {
                proof {
                    assert(poly_edge_ops(vs, i as int, base, s0 + pre_sops.len())
                        =~= Seq::<ScalarOp>::empty());
                    assert(pre_sops + Seq::<ScalarOp>::empty() =~= pre_sops);
                    assert(poly_stroke_ops(vs, i as int + 1, base, s0) == pre_sops);
                    assert(stroke_verts@ =~= poly_stroke_verts(vs, i as int + 1, base, s0));
                }
            }
            i = i + 1;
        }
        self.shapes.push(GlShape { kind: GeometryKind::Triangles, vertices: stroke_verts });
        proof {
            assert(self.shapes@.subrange(0, mid_shapes.len() as int) =~= mid_shapes);
            assert(self.shapes@.subrange(0, old(self).shapes@.len() as int) =~= old(self).shapes@);
            lemma_concat_associative(
                old(self).tape.ops@,
                poly_ops(vs),
                poly_stroke_ops(vs, n as int, base, s0),
            );
        }
        Ok(())
    }
}

/// The style and any open polygon survive a drawing call untouched.
pub open spec fn style_preserved(pre: GraphicsP2D, post: GraphicsP2D) -> bool {
    post.stroke_settings == pre.stroke_settings && post.geometry == pre.geometry
}

/// A stroke-only drawing call: nothing without a stroke color, else the
/// given operations and one batch of the given triangles in that color.
pub open spec fn stroke_pass_post(
    pre: GraphicsP2D,
    post: GraphicsP2D,
    ops: Seq<ScalarOp>,
    tris: Seq<GlTriangle>,
) -> bool {
    match pre.stroke_settings.stroke {
        None => post.tape.ops@ == pre.tape.ops@ && post.shapes@ == pre.shapes@,
        Some(col) => {
            &&& post.tape.ops@ == pre.tape.ops@ + ops
            &&& appended1(pre.shapes@, post.shapes@, GeometryKind::Triangles, colored(tris, col))
        },
    }
}

/// A fill-and-stroke drawing call: a pass per active color, fill first,
/// each pass recomputing its own coordinates.
pub open spec fn two_pass_post(
    pre: GraphicsP2D,
    post: GraphicsP2D,
    fill_ops: Seq<ScalarOp>,
    fill_tris: Seq<GlTriangle>,
    stroke_ops_alone: Seq<ScalarOp>,
    stroke_tris_alone: Seq<GlTriangle>,
    stroke_ops_after: Seq<ScalarOp>,
    stroke_tris_after: Seq<GlTriangle>,
) -> bool {
    match (pre.stroke_settings.fill, pre.stroke_settings.stroke) {
        (None, None) => post.tape.ops@ == pre.tape.ops@ && post.shapes@ == pre.shapes@,
        (Some(f), None) => {
            &&& post.tape.ops@ == pre.tape.ops@ + fill_ops
            &&& appended1(pre.shapes@, post.shapes@, GeometryKind::Triangles, colored(fill_tris, f))
        },
        (None, Some(s)) => {
            &&& post.tape.ops@ == pre.tape.ops@ + stroke_ops_alone
            &&& appended1(
                pre.shapes@,
                post.shapes@,
                GeometryKind::Triangles,
                colored(stroke_tris_alone, s),
            )
        },
        (Some(f), Some(s)) => {
            &&& post.tape.ops@ == pre.tape.ops@ + fill_ops + stroke_ops_after
            &&& appended2(
                pre.shapes@,
                post.shapes@,
                GeometryKind::Triangles,
                colored(fill_tris, f),
                GeometryKind::Triangles,
                colored(stroke_tris_after, s),
            )
        },
    }
}

/// What [`GraphicsP2D::point`] does.
pub open spec fn point_post(pre: GraphicsP2D, post: GraphicsP2D, v: (Scalar, Scalar)) -> bool {
    &&& post.wf()
    &&& style_preserved(pre, post)
    &&& stroke_pass_post(
        pre,
        post,
        point_pass_ops(
            v,
            pre.stroke_settings.stroke_weight,
            pre.stroke_settings.stroke_cap,
            pre.tape.len(),
        ),
        point_pass_tris(pre.stroke_settings.stroke_cap, pre.tape.len()),
    )
}

/// What [`GraphicsP2D::line`] does.
pub open spec fn line_post(
    pre: GraphicsP2D,
    post: GraphicsP2D,
    a: (Scalar, Scalar),
    b: (Scalar, Scalar),
) -> bool {
    &&& post.wf()
    &&& style_preserved(pre, post)
    &&& stroke_pass_post(
        pre,
        post,
        line_pass_ops(
            a,
            b,
            pre.stroke_settings.stroke_weight,
            pre.stroke_settings.stroke_cap,
            pre.tape.len(),
        ),
        line_pass_tris(pre.stroke_settings.stroke_cap, pre.tape.len()),
    )
}

/// What [`GraphicsP2D::triangle`] does.
pub open spec fn triangle_post(
    pre: GraphicsP2D,
    post: GraphicsP2D,
    a: (Scalar, Scalar),
    b: (Scalar, Scalar),
    c: (Scalar, Scalar),
) -> bool {
    let base = pre.tape.len();
    let wt = pre.stroke_settings.stroke_weight;
    &&& post.wf()
    &&& style_preserved(pre, post)
    &&& two_pass_post(
        pre,
        post,
        tri_pts_ops(a, b, c),
        tri_fill_tris(base),
        tri_stroke_ops(a, b, c, wt, base),
        tri_stroke_tris(base),
        tri_stroke_ops(a, b, c, wt, base + 6),
        tri_stroke_tris(base + 6),
    )
}

/// What [`GraphicsP2D::rect`] does.
pub open spec fn rect_post(
    pre: GraphicsP2D,
    post: GraphicsP2D,
    x: Scalar,
    y: Scalar,
    w: Scalar,
    h: Scalar,
) -> bool {
    let base = pre.tape.len();
    let wt = pre.stroke_settings.stroke_weight;
    &&& post.wf()
    &&& style_preserved(pre, post)
    &&& two_pass_post(
        pre,
        post,
        rect_pts_ops(x, y, w, h, base),
        rect_fill_tris(base),
        rect_stroke_ops(x, y, w, h, wt, base),
        rect_stroke_tris(base),
        rect_stroke_ops(x, y, w, h, wt, base + 6),
        rect_stroke_tris(base + 6),
    )
}

/// What [`GraphicsP2D::ellipse`] does.
pub open spec fn ellipse_post(
    pre: GraphicsP2D,
    post: GraphicsP2D,
    x: Scalar,
    y: Scalar,
    w: Scalar,
    h: Scalar,
) -> bool {
    let base = pre.tape.len();
    let wt = pre.stroke_settings.stroke_weight;
    &&& post.wf()
    &&& style_preserved(pre, post)
    &&& two_pass_post(
        pre,
        post,
        ellipse_fill_ops(x, y, w, h, base),
        ellipse_fill_tris(base),
        ellipse_stroke_ops(x, y, w, h, wt, base),
        ellipse_stroke_tris(base),
        ellipse_stroke_ops(x, y, w, h, wt, base + 4 + fan_ops_len()),
        ellipse_stroke_tris(base + 4 + fan_ops_len()),
    )
}

/// What [`GraphicsP2D::ellipse_arc`] does.
pub open spec fn ellipse_arc_post(
    pre: GraphicsP2D,
    post: GraphicsP2D,
    x: Scalar,
    y: Scalar,
    w: Scalar,
    h: Scalar,
    start: Scalar,
    stop: Scalar,
) -> bool {
    let base = pre.tape.len();
    let wt = pre.stroke_settings.stroke_weight;
    &&& post.wf()
    &&& style_preserved(pre, post)
    &&& two_pass_post(
        pre,
        post,
        arc_fill_ops(x, y, w, h, start, stop, base),
        arc_fill_tris(base),
        arc_stroke_ops(x, y, w, h, start, stop, wt, base),
        arc_stroke_tris(base),
        arc_stroke_ops(x, y, w, h, start, stop, wt, base + 6 + arc_ops_len()),
        arc_stroke_tris(base + 6 + arc_ops_len()),
    )
}

/// A stroked line appends one batch whose size the cap decides: the butt
/// and square caps give exactly the rectangle's six vertices, nothing
/// added at the endpoints; the round cap adds one fan of
/// [`CIRCLE_SEGMENTS`] triangles per endpoint on top of the rectangle.
pub proof fn lemma_line_batch(
    pre: GraphicsP2D,
    post: GraphicsP2D,
    a: (Scalar, Scalar),
    b: (Scalar, Scalar),
    s: Color,
)
    requires
        line_post(pre, post, a, b),
        pre.stroke_settings.stroke == Some(s),
    ensures
        post.shapes@.len() == pre.shapes@.len() + 1,
        pre.stroke_settings.stroke_cap == StrokeCap::Butt ==> post.shapes@.last().vertices@.len()
            == 6,
        pre.stroke_settings.stroke_cap == StrokeCap::Square ==> post.shapes@.last().vertices@.len()
            == 6,
        pre.stroke_settings.stroke_cap == StrokeCap::Round ==> post.shapes@.last().vertices@.len()
            == 6 + 3 * (2 * CIRCLE_SEGMENTS as int),
        forall|k: int|
            0 <= k < post.shapes@.last().vertices@.len() ==> (#[trigger] post.shapes@.last().vertices@[k]).color
                == s,
{
    let base = pre.tape.len();
    let cap = pre.stroke_settings.stroke_cap;
    let tris = line_pass_tris(cap, base);
    crate::mesh::lemma_colored_shape(tris, s);
    crate::mesh::lemma_colored_color(tris, s);
    if cap == StrokeCap::Round {
        tess::lemma_round_line_len(lit_pt(base), lit_pt(base + 2), sid(base + 4), base + 5);
    }
}

/// A rectangle's fill pass is exactly two triangles, and their corner set
/// is exactly the four rectangle corners: the split adds no points.
pub proof fn lemma_rect_fill_corners(base: int)
    ensures
        rect_fill_tris(base).len() == 2,
        crate::mesh::mesh_points(rect_fill_tris(base)) =~= set![
            rect_corner_a(base),
            rect_corner_b(base),
            rect_corner_c(base),
            rect_corner_d(base),
        ],
{
    tess::lemma_quad_fill_points(
        rect_corner_a(base),
        rect_corner_b(base),
        rect_corner_c(base),
        rect_corner_d(base),
    );
}

/// An ellipse's fill pass has exactly one triangle per segment of the fan.
pub proof fn lemma_ellipse_fill_count(base: int)
    ensures
        ellipse_fill_tris(base).len() == CIRCLE_SEGMENTS,
{
    tess::lemma_ellipse_fan_ops_len(
        lit_pt(base),
        sid(base + 2),
        sid(base + 3),
        sid(base + 4 + 4),
        CIRCLE_SEGMENTS as int,
        base + 4 + 5,
    );
}

/// After a background call the buffer holds exactly one batch of six
/// vertices: the two triangles of the full-canvas rectangle, all in the
/// background color.
pub proof fn lemma_background_batch(pre: GraphicsP2D, post: GraphicsP2D, color: Color, width: u32, height: u32)
    requires
        background_post(pre, post, color, width, height),
    ensures
        post.shapes@.len() == 1,
        post.shapes@[0].vertices@.len() == 6,
        forall|k: int|
            0 <= k < post.shapes@[0].vertices@.len() ==> (#[trigger] post.shapes@[0].vertices@[k]).color
                == color,
{
    crate::mesh::lemma_colored_shape(background_tris(), color);
    crate::mesh::lemma_colored_color(background_tris(), color);
}

/// Drawing a triangle with both passes active appends exactly two
/// batches: three vertices of the fill color, then one round-capped
/// stroke per edge — three edges, each a quad and two endpoint fans —
/// all of the stroke color.
#[verifier::rlimit(100)]
#[verifier::spinoff_prover]
pub proof fn lemma_triangle_two_batches(
    pre: GraphicsP2D,
    post: GraphicsP2D,
    a: (Scalar, Scalar),
    b: (Scalar, Scalar),
    c: (Scalar, Scalar),
    f: Color,
    s: Color,
)
    requires
        triangle_post(pre, post, a, b, c),
        pre.stroke_settings.fill == Some(f),
        pre.stroke_settings.stroke == Some(s),
    ensures
        post.shapes@.len() == pre.shapes@.len() + 2,
        post.shapes@[post.shapes@.len() - 2].vertices@.len() == 3,
        forall|k: int|
            0 <= k < 3 ==> (#[trigger] post.shapes@[post.shapes@.len() - 2].vertices@[k]).color == f,
        post.shapes@.last().vertices@.len() == 3 * 3 * (2 * CIRCLE_SEGMENTS as int + 2),
        forall|k: int|
            0 <= k < post.shapes@.last().vertices@.len() ==> (#[trigger] post.shapes@.last().vertices@[k]).color
                == s,
{
    let base = pre.tape.len();
    let fill_tris = tri_fill_tris(base);
    let stroke_tris = tri_stroke_tris(base + 6);
    crate::mesh::lemma_colored_shape(fill_tris, f);
    crate::mesh::lemma_colored_shape(stroke_tris, s);
    crate::mesh::lemma_colored_color(fill_tris, f);
    crate::mesh::lemma_colored_color(stroke_tris, s);
    lemma_stroke_lens(tri_edges(base + 6), sid(base + 6 + 6), base + 6 + 7);
    assert(stroke_tris.len() == 3 * (2 * CIRCLE_SEGMENTS as int + 2)) by (nonlinear_arith)
        requires
            stroke_tris.len() == tess::round_line_tri_count() * 3,
            tess::round_line_tri_count() == 2 * CIRCLE_SEGMENTS as int + 2,
    ;
    assert(post.shapes@[post.shapes@.len() - 2].vertices@ == colored(fill_tris, f));
    assert(post.shapes@.last().vertices@ == colored(stroke_tris, s));
    assert(post.shapes@.last().vertices@.len() == 3 * 3 * (2 * CIRCLE_SEGMENTS as int + 2))
        by (nonlinear_arith)
        requires
            post.shapes@.last().vertices@.len() == 3 * stroke_tris.len(),
            stroke_tris.len() == 3 * (2 * CIRCLE_SEGMENTS as int + 2),
    ;
}

/// What [`GraphicsP2D::background`] does.
pub open spec fn background_post(
    pre: GraphicsP2D,
    post: GraphicsP2D,
    color: Color,
    width: u32,
    height: u32,
) -> bool {
    &&& post.wf()
    &&& style_preserved(pre, post)
    &&& post.tape.ops@ == background_ops(width, height)
    &&& post.shapes@.len() == 1
    &&& post.shapes@[0].kind == GeometryKind::Triangles
    &&& post.shapes@[0].vertices@ == colored(background_tris(), color)
}

} // verus!
