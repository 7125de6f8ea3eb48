//! A retained-per-frame 2D vector-graphics canvas for sketch-style drawing.
//!
//! Callers issue declarative drawing calls (point, line, triangle, rectangle,
//! ellipse, arc, arbitrary polygon) together with style state (fill color,
//! stroke color, weight, cap, join), and the canvas turns them into a flat
//! list of colored triangles ready for upload to a GPU each frame.
//!
//! Coordinates are kept symbolic: every scalar the tessellator produces is an
//! entry on an arithmetic tape (see [`scalar`]), and the rendering host
//! evaluates the tape with its native single-precision arithmetic just before
//! upload. This keeps the whole tessellation engine, the canvas state machine
//! and the frame lifecycle free of machine floating point, so all of it is
//! verified.

pub use color::Color;
pub use geometry::GeometryKind;
pub use graphics::GraphicsP2D;
pub use processing::Processing;
pub use renderer::VertexShape;
pub use scalar::Scalar;
pub use settings::StrokeCap;

pub mod color;
pub mod geometry;
pub mod graphics;
pub mod mesh;
pub mod processing;
pub mod renderer;
pub mod scalar;
pub mod settings;
pub mod tess;
