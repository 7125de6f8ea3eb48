//! Geometry batches built through the immediate-mode begin/vertex/end calls.

use vstd::prelude::*;

use crate::color::Color;
use crate::scalar::Scalar;

verus! {

/// How a batch of vertices is to be interpreted by the render backend.
#[derive(Debug, Clone, Copy, PartialEq, Eq, Structural)]
pub enum GeometryKind {
    Points,
    Lines,
    Triangles,
    TriangleFan,
    TriangleStrip,
    Quads,
    QuadStrip,
    Polygon,
}

/// One vertex record of an open polygon: its position and the style that
/// was active when it was appended.
#[derive(Debug, Clone, Copy)]
pub struct GeometryVertex {
    pub x: Scalar,
    pub y: Scalar,
    pub fill: Option<Color>,
    pub stroke: Option<Color>,
    pub stroke_weight: Scalar,
}

impl GeometryVertex {
    pub fn new(
        x: Scalar,
        y: Scalar,
        fill: Option<Color>,
        stroke: Option<Color>,
        stroke_weight: Scalar,
    ) -> (v: GeometryVertex)
        ensures
            v == (GeometryVertex { x, y, fill, stroke, stroke_weight }),
    {
        GeometryVertex { x, y, fill, stroke, stroke_weight }
    }
}

/// An open polygon: the ordered vertex records appended since `begin_shape`.
pub struct Geometry {
    pub kind: GeometryKind,
    pub vertices: Vec<GeometryVertex>,
}

impl Geometry {
    pub fn new(kind: GeometryKind) -> (g: Geometry)
        ensures
            g.kind == kind,
            g.vertices@ == Seq::<GeometryVertex>::empty(),
    {
        Geometry { kind, vertices: Vec::new() }
    }

    pub fn push_vertex(&mut self, vertex: GeometryVertex)
        ensures
            final(self).kind == old(self).kind,
            final(self).vertices@ == old(self).vertices@.push(vertex),
    {
        self.vertices.push(vertex);
    }
}

} // verus!
