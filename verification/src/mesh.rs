//! Triangle meshes over tape-backed points, and the coloring stage that
//! turns them into the vertex stream the render backend consumes.

use vstd::prelude::*;

use crate::color::Color;
use crate::geometry::GeometryKind;
use crate::scalar::ScalarId;

verus! {

/// A tessellated point: its two coordinates on the tape.
#[derive(Debug, Clone, Copy, PartialEq, Eq, Structural)]
pub struct PointId {
    pub x: ScalarId,
    pub y: ScalarId,
}

/// Both coordinates lie strictly before `bound` on the tape.
pub open spec fn point_wf(p: PointId, bound: int) -> bool {
    p.x.index < bound && p.y.index < bound
}

/// One flat triangle of the mesh.
#[derive(Debug, Clone, Copy, PartialEq, Eq, Structural)]
pub struct GlTriangle {
    pub a: PointId,
    pub b: PointId,
    pub c: PointId,
}

impl GlTriangle {
    pub fn new(a: PointId, b: PointId, c: PointId) -> (t: GlTriangle)
        ensures
            t == (GlTriangle { a, b, c }),
    {
        GlTriangle { a, b, c }
    }
}

pub open spec fn tri_wf(t: GlTriangle, bound: int) -> bool {
    point_wf(t.a, bound) && point_wf(t.b, bound) && point_wf(t.c, bound)
}

pub open spec fn tris_wf(ts: Seq<GlTriangle>, bound: int) -> bool {
    forall|i: int| 0 <= i < ts.len() ==> tri_wf(#[trigger] ts[i], bound)
}

/// The distinct corner points of a mesh.
pub open spec fn mesh_points(ts: Seq<GlTriangle>) -> Set<PointId>
    decreases ts.len(),
{
    if ts.len() == 0 {
        Set::<PointId>::empty()
    } else {
        mesh_points(ts.drop_last()).union(set![ts.last().a, ts.last().b, ts.last().c])
    }
}

/// A colored vertex, the only datum that crosses to the render backend.
/// Its third coordinate is always zero and is supplied by the host.
#[derive(Debug, Clone, Copy, PartialEq, Eq, Structural)]
pub struct Vertex {
    pub x: ScalarId,
    pub y: ScalarId,
    pub color: Color,
}

pub fn vert2d(x: ScalarId, y: ScalarId, color: Color) -> (v: Vertex)
    ensures
        v == (Vertex { x, y, color }),
{
    Vertex { x, y, color }
}

pub open spec fn vertex_wf(v: Vertex, bound: int) -> bool {
    v.x.index < bound && v.y.index < bound
}

pub open spec fn vertices_wf(vs: Seq<Vertex>, bound: int) -> bool {
    forall|i: int| 0 <= i < vs.len() ==> vertex_wf(#[trigger] vs[i], bound)
}

/// One finished batch: a vertex stream and how the backend interprets it.
/// Everything the tessellator emits is an independent triangle list; only
/// the immediate-mode polygon pass-through keeps its caller-chosen kind.
#[derive(Debug, Clone)]
pub struct GlShape {
    pub kind: GeometryKind,
    pub vertices: Vec<Vertex>,
}

pub open spec fn shape_wf(s: GlShape, bound: int) -> bool {
    vertices_wf(s.vertices@, bound)
}

pub open spec fn shapes_wf(ss: Seq<GlShape>, bound: int) -> bool {
    forall|i: int| 0 <= i < ss.len() ==> shape_wf(#[trigger] ss[i], bound)
}

/// The three vertices of one triangle, colored.
pub open spec fn tri_vertices(t: GlTriangle, color: Color) -> Seq<Vertex> {
    seq![
        Vertex { x: t.a.x, y: t.a.y, color },
        Vertex { x: t.b.x, y: t.b.y, color },
        Vertex { x: t.c.x, y: t.c.y, color },
    ]
}

/// A mesh flattened to a vertex stream: three vertices per triangle, in
/// order, all of one color.
pub open spec fn colored(ts: Seq<GlTriangle>, color: Color) -> Seq<Vertex>
    decreases ts.len(),
{
    if ts.len() == 0 {
        Seq::<Vertex>::empty()
    } else {
        colored(ts.drop_last(), color) + tri_vertices(ts.last(), color)
    }
}

/// The vertex stream has exactly three entries per triangle, each carrying
/// the triangle's corners in order and the one color.
pub proof fn lemma_colored_shape(ts: Seq<GlTriangle>, color: Color)
    ensures
        colored(ts, color).len() == 3 * ts.len(),
        forall|i: int|
            0 <= i < ts.len() ==> colored(ts, color)[3 * i] == (Vertex {
                x: (#[trigger] ts[i]).a.x,
                y: ts[i].a.y,
                color,
            }) && colored(ts, color)[3 * i + 1] == (Vertex {
                x: ts[i].b.x,
                y: ts[i].b.y,
                color,
            }) && colored(ts, color)[3 * i + 2] == (Vertex { x: ts[i].c.x, y: ts[i].c.y, color }),
    decreases ts.len(),
{
    if ts.len() > 0 {
        let pre = ts.drop_last();
        lemma_colored_shape(pre, color);
        assert forall|i: int|
            0 <= i < ts.len() implies colored(ts, color)[3 * i] == (Vertex {
            x: (#[trigger] ts[i]).a.x,
            y: ts[i].a.y,
            color,
        }) && colored(ts, color)[3 * i + 1] == (Vertex {
            x: ts[i].b.x,
            y: ts[i].b.y,
            color,
        }) && colored(ts, color)[3 * i + 2] == (Vertex {
            x: ts[i].c.x,
            y: ts[i].c.y,
            color,
        }) by {
            if i < ts.len() - 1 {
                assert(pre[i] == ts[i]);
                assert(colored(ts, color)[3 * i] == colored(pre, color)[3 * i]);
                assert(colored(ts, color)[3 * i + 1] == colored(pre, color)[3 * i + 1]);
                assert(colored(ts, color)[3 * i + 2] == colored(pre, color)[3 * i + 2]);
            } else {
                assert(ts[i] == ts.last());
                assert(colored(ts, color)[3 * i] == tri_vertices(ts.last(), color)[0]);
                assert(colored(ts, color)[3 * i + 1] == tri_vertices(ts.last(), color)[1]);
                assert(colored(ts, color)[3 * i + 2] == tri_vertices(ts.last(), color)[2]);
            }
        }
    }
}

/// Every vertex of a colored mesh carries the one color.
pub proof fn lemma_colored_color(ts: Seq<GlTriangle>, color: Color)
    ensures
        forall|k: int|
            0 <= k < colored(ts, color).len() ==> (#[trigger] colored(ts, color)[k]).color == color,
    decreases ts.len(),
{
    if ts.len() > 0 {
        lemma_colored_color(ts.drop_last(), color);
        assert forall|k: int|
            0 <= k < colored(ts, color).len() implies (#[trigger] colored(ts, color)[k]).color
            == color by {
            let pre = colored(ts.drop_last(), color);
            if k < pre.len() {
                assert(colored(ts, color)[k] == pre[k]);
            } else {
                assert(colored(ts, color)[k] == tri_vertices(ts.last(), color)[k - pre.len()]);
            }
        }
    }
}

/// A colored mesh over a well-formed triangle list is itself well formed.
pub proof fn lemma_colored_wf(ts: Seq<GlTriangle>, color: Color, bound: int)
    requires
        tris_wf(ts, bound),
    ensures
        vertices_wf(colored(ts, color), bound),
    decreases ts.len(),
{
    if ts.len() > 0 {
        assert(tris_wf(ts.drop_last(), bound)) by {
            assert(forall|i: int|
                0 <= i < ts.drop_last().len() ==> #[trigger] ts.drop_last()[i] == ts[i]);
        }
        lemma_colored_wf(ts.drop_last(), color, bound);
        assert(tri_wf(ts.last(), bound));
    }
}

/// Ids only ever point backward, so growing the tape keeps every finished
/// batch well formed.
pub proof fn lemma_shapes_wf_mono(ss: Seq<GlShape>, b1: int, b2: int)
    requires
        shapes_wf(ss, b1),
        b1 <= b2,
    ensures
        shapes_wf(ss, b2),
{
    assert forall|i: int| 0 <= i < ss.len() implies shape_wf(#[trigger] ss[i], b2) by {
        assert(shape_wf(ss[i], b1));
        assert forall|k: int| 0 <= k < ss[i].vertices@.len() implies vertex_wf(
            #[trigger] ss[i].vertices@[k],
            b2,
        ) by {
            assert(vertex_wf(ss[i].vertices@[k], b1));
        }
    }
}

/// A tessellated mesh awaiting its color.
pub struct Tessellate {
    pub triangles: Vec<GlTriangle>,
}

impl Tessellate {
    pub fn new(triangles: Vec<GlTriangle>) -> (t: Tessellate)
        ensures
            t.triangles@ == triangles@,
    {
        Tessellate { triangles }
    }

    /// Flatten the mesh to a vertex stream, all of one color.
    pub fn color(self, color: Color) -> (r: Vec<Vertex>)
        ensures
            r@ == colored(self.triangles@, color),
    {
        let mut r: Vec<Vertex> = Vec::new();
        let n = self.triangles.len();
        let mut i: usize = 0;
        while i < n
            invariant
                i <= n,
                n == self.triangles@.len(),
                r@ == colored(self.triangles@.take(i as int), color),
            decreases n - i,
        {
            let t = self.triangles[i];
            r.push(vert2d(t.a.x, t.a.y, color));
            r.push(vert2d(t.b.x, t.b.y, color));
            r.push(vert2d(t.c.x, t.c.y, color));
            proof {
                let pre = self.triangles@.take(i as int);
                let post = self.triangles@.take(i as int + 1);
                assert(post.drop_last() =~= pre);
                assert(post.last() == self.triangles@[i as int]);
                assert(r@ =~= colored(pre, color) + tri_vertices(self.triangles@[i as int], color));
            }
            i = i + 1;
        }
        proof {
            assert(self.triangles@.take(n as int) =~= self.triangles@);
        }
        r
    }
}

} // verus!
