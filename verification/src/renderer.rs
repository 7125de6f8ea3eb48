//! The immediate-mode polygon capability, as an interface.
//!
//! A canvas that can build an arbitrary polygon vertex by vertex offers
//! these three calls. The protocol is a two-state machine: closed or open.
//! Opening twice, or appending and closing while closed, is a protocol
//! violation that the host treats as fatal.

use vstd::prelude::*;

use crate::geometry::GeometryKind;
use crate::graphics::{GraphicsP2D, ProtocolViolation};
use crate::scalar::Scalar;

verus! {

/// A canvas capability: building one polygon through begin/vertex/end.
pub trait VertexShape {
    type Item;

    /// The canvas's own well-formedness, preserved by every call.
    spec fn inv(&self) -> bool;

    /// Whether a polygon is currently open.
    spec fn in_shape(&self) -> bool;

    /// Open a polygon. Succeeds exactly when none is open; afterwards one
    /// is open either way.
    fn begin_shape(&mut self, kind: GeometryKind) -> (r: Result<(), ProtocolViolation>)
        requires
            old(self).inv(),
        ensures
            final(self).inv(),
            r is Ok <==> !old(self).in_shape(),
            final(self).in_shape(),
    ;

    /// Append a vertex to the open polygon. Succeeds exactly when one is
    /// open, and never changes whether one is.
    fn vertex(&mut self, vertex: Self::Item) -> (r: Result<(), ProtocolViolation>)
        requires
            old(self).inv(),
        ensures
            final(self).inv(),
            r is Ok <==> old(self).in_shape(),
            final(self).in_shape() == old(self).in_shape(),
    ;

    /// Close and tessellate the open polygon. Succeeds exactly when one
    /// is open; afterwards none is open either way.
    fn end_shape(&mut self) -> (r: Result<(), ProtocolViolation>)
        requires
            old(self).inv(),
        ensures
            final(self).inv(),
            r is Ok <==> old(self).in_shape(),
            !final(self).in_shape(),
    ;
}

impl VertexShape for GraphicsP2D {
    type Item = (Scalar, Scalar);

    open spec fn inv(&self) -> bool {
        self.wf()
    }

    open spec fn in_shape(&self) -> bool {
        self.spec_in_shape()
    }

    fn begin_shape(&mut self, kind: GeometryKind) -> (r: Result<(), ProtocolViolation>) {
        GraphicsP2D::begin_shape(self, kind)
    }

    fn vertex(&mut self, vertex: (Scalar, Scalar)) -> (r: Result<(), ProtocolViolation>) {
        GraphicsP2D::vertex(self, vertex)
    }

    fn end_shape(&mut self) -> (r: Result<(), ProtocolViolation>) {
        GraphicsP2D::end_shape(self)
    }
}

} // verus!
