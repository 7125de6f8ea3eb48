//! The frame lifecycle: setup once, then an event-driven loop.
//!
//! `Processing` owns the canvas, the window settings and the loop flags,
//! and decides what each incoming platform event means. The host performs
//! the outside work: it owns the window, the GPU context and the sketch's
//! callbacks, feeds every event through [`Processing::event_handler`], and
//! carries out the returned [`Action`] — invoking a callback, presenting
//! the frame, or leaving the event loop.

use vstd::prelude::*;

use crate::color::Color;
use crate::geometry::GeometryKind;
use crate::graphics::{
    background_post, ellipse_arc_post, ellipse_post, line_post, point_post, rect_post,
    triangle_post, GraphicsP2D, ProtocolViolation,
};
use crate::scalar::Scalar;
use crate::settings::{default_stroke_settings, StrokeCap, StrokeJoin, StrokeSettings, WindowSettings};

verus! {

/// A platform event, reduced to what the lifecycle decides on. The host
/// keeps the payloads (key codes, buttons, cursor coordinates) and hands
/// them to the chosen callback itself.
#[derive(Debug, Clone, Copy, PartialEq, Eq, Structural)]
pub enum Event {
    /// The window was asked to close.
    CloseRequested,
    /// The backing surface was resized.
    Resized(u32, u32),
    /// A keyboard key changed state; `coded` says the platform mapped it
    /// to a portable key code.
    Keyboard { released: bool, coded: bool },
    /// The cursor moved over the surface.
    CursorMoved,
    /// The mouse wheel turned.
    MouseWheel,
    /// A mouse button changed state.
    MouseButton { released: bool },
    /// The platform asked for the frame to be presented.
    RedrawRequested,
    /// Anything else.
    Other,
}

/// What the host must do after handing an event to the lifecycle.
#[derive(Debug, Clone, Copy, PartialEq, Eq, Structural)]
pub enum Action {
    /// Leave the event loop.
    Exit,
    /// Invoke the key-pressed callback with the released key.
    InvokeKeyPressed,
    /// Invoke the mouse-moved callback with the cursor position.
    InvokeMouseMoved,
    /// Invoke the mouse-clicked callback with the released button.
    InvokeMouseClicked,
    /// Run the draw callback if `invoke_draw`, then present the canvas
    /// buffer.
    Draw { invoke_draw: bool },
    /// Nothing.
    Nothing,
}

/// Which callbacks the host has registered. At most one of each kind.
#[derive(Debug, Clone, Copy, PartialEq, Eq, Structural)]
pub struct Callbacks {
    pub has_draw: bool,
    pub has_mouse_clicked: bool,
    pub has_mouse_moved: bool,
    pub has_key_pressed: bool,
}

/// The lifecycle state: the sketch's own state, the canvas, and the loop
/// flags.
pub struct Processing<S> {
    pub state: S,
    pub g: GraphicsP2D,
    pub window_settings: WindowSettings,
    pub is_loop: bool,
    pub frame_rate: u32,
    pub frame_count: u32,
    pub redraw_requested: bool,
}

impl<S> Processing<S> {
    pub open spec fn wf(self) -> bool {
        self.g.wf()
    }

    /// A fresh lifecycle: looping, with a fresh canvas in the default
    /// style.
    pub fn new(state: S, window_settings: WindowSettings) -> (p: Processing<S>)
        ensures
            p.state == state,
            p.window_settings == window_settings,
            p.is_loop,
            p.frame_rate == 1,
            p.frame_count == 0,
            !p.redraw_requested,
            p.wf(),
            p.g.stroke_settings == default_stroke_settings(),
            p.g.tape.ops@ == Seq::<crate::scalar::ScalarOp>::empty(),
            p.g.shapes@ == Seq::<crate::mesh::GlShape>::empty(),
            p.g.geometry is None,
    {
        Processing {
            state,
            g: Default::default(),
            window_settings,
            is_loop: true,
            frame_rate: 1,
            frame_count: 0,
            redraw_requested: false,
        }
    }

    /// Record a new window title. The host also renames the real window.
    pub fn title(&mut self, title: &str)
        ensures
            final(self).window_settings.title@ == title@,
            final(self).window_settings.width == old(self).window_settings.width,
            final(self).window_settings.height == old(self).window_settings.height,
            final(self).state == old(self).state,
            final(self).g == old(self).g,
            final(self).is_loop == old(self).is_loop,
            final(self).frame_rate == old(self).frame_rate,
            final(self).frame_count == old(self).frame_count,
            final(self).redraw_requested == old(self).redraw_requested,
    {
        self.window_settings.title = title.to_owned();
    }

    pub fn width(&self) -> (r: u32)
        ensures
            r == self.window_settings.width,
    {
        self.window_settings.width
    }

    pub fn height(&self) -> (r: u32)
        ensures
            r == self.window_settings.height,
    {
        self.window_settings.height
    }

    /// Set the stroke color for subsequent shapes.
    pub fn stroke(&mut self, color: Color)
        ensures
            final(self).g.stroke_settings == (StrokeSettings {
                stroke: Some(color),
                ..old(self).g.stroke_settings
            }),
            final(self).g.tape == old(self).g.tape,
            final(self).g.shapes@ == old(self).g.shapes@,
            final(self).g.geometry == old(self).g.geometry,
            final(self).state == old(self).state,
            final(self).window_settings == old(self).window_settings,
            final(self).is_loop == old(self).is_loop,
            final(self).frame_rate == old(self).frame_rate,
            final(self).frame_count == old(self).frame_count,
            final(self).redraw_requested == old(self).redraw_requested,
    {
        self.g.stroke(Some(color));
    }

    /// Disable the stroke pass for subsequent shapes.
    pub fn no_stroke(&mut self)
        ensures
            final(self).g.stroke_settings == (StrokeSettings {
                stroke: None,
                ..old(self).g.stroke_settings
            }),
            final(self).g.tape == old(self).g.tape,
            final(self).g.shapes@ == old(self).g.shapes@,
            final(self).g.geometry == old(self).g.geometry,
            final(self).state == old(self).state,
            final(self).window_settings == old(self).window_settings,
            final(self).is_loop == old(self).is_loop,
            final(self).frame_rate == old(self).frame_rate,
            final(self).frame_count == old(self).frame_count,
            final(self).redraw_requested == old(self).redraw_requested,
    {
        self.g.stroke(None);
    }

    /// Set the fill color for subsequent shapes.
    pub fn fill(&mut self, color: Color)
        ensures
            final(self).g.stroke_settings == (StrokeSettings {
                fill: Some(color),
                ..old(self).g.stroke_settings
            }),
            final(self).g.tape == old(self).g.tape,
            final(self).g.shapes@ == old(self).g.shapes@,
            final(self).g.geometry == old(self).g.geometry,
            final(self).state == old(self).state,
            final(self).window_settings == old(self).window_settings,
            final(self).is_loop == old(self).is_loop,
            final(self).frame_rate == old(self).frame_rate,
            final(self).frame_count == old(self).frame_count,
            final(self).redraw_requested == old(self).redraw_requested,
    {
        self.g.fill(Some(color));
    }

    /// Disable the fill pass for subsequent shapes.
    pub fn no_fill(&mut self)
        ensures
            final(self).g.stroke_settings == (StrokeSettings {
                fill: None,
                ..old(self).g.stroke_settings
            }),
            final(self).g.tape == old(self).g.tape,
            final(self).g.shapes@ == old(self).g.shapes@,
            final(self).g.geometry == old(self).g.geometry,
            final(self).state == old(self).state,
            final(self).window_settings == old(self).window_settings,
            final(self).is_loop == old(self).is_loop,
            final(self).frame_rate == old(self).frame_rate,
            final(self).frame_count == old(self).frame_count,
            final(self).redraw_requested == old(self).redraw_requested,
    {
        self.g.fill(None);
    }

    /// Set the stroke weight for subsequent shapes.
    pub fn stroke_weight(&mut self, weight: Scalar)
        ensures
            final(self).g.stroke_settings == (StrokeSettings {
                stroke_weight: weight,
                ..old(self).g.stroke_settings
            }),
            final(self).g.tape == old(self).g.tape,
            final(self).g.shapes@ == old(self).g.shapes@,
            final(self).g.geometry == old(self).g.geometry,
            final(self).state == old(self).state,
            final(self).window_settings == old(self).window_settings,
            final(self).is_loop == old(self).is_loop,
            final(self).frame_rate == old(self).frame_rate,
            final(self).frame_count == old(self).frame_count,
            final(self).redraw_requested == old(self).redraw_requested,
    {
        self.g.stroke_weight(weight);
    }

    /// Set the cap for subsequent lines and points.
    pub fn stroke_cap(&mut self, cap: StrokeCap)
        ensures
            final(self).g.stroke_settings == (StrokeSettings {
                stroke_cap: cap,
                ..old(self).g.stroke_settings
            }),
            final(self).g.tape == old(self).g.tape,
            final(self).g.shapes@ == old(self).g.shapes@,
            final(self).g.geometry == old(self).g.geometry,
            final(self).state == old(self).state,
            final(self).window_settings == old(self).window_settings,
            final(self).is_loop == old(self).is_loop,
            final(self).frame_rate == old(self).frame_rate,
            final(self).frame_count == old(self).frame_count,
            final(self).redraw_requested == old(self).redraw_requested,
    {
        self.g.stroke_cap(cap);
    }

    /// Set the join style. Accepted but not honored: joins render round.
    pub fn stroke_join(&mut self, join: StrokeJoin)
        ensures
            final(self).g.stroke_settings == (StrokeSettings {
                stroke_join: join,
                ..old(self).g.stroke_settings
            }),
            final(self).g.tape == old(self).g.tape,
            final(self).g.shapes@ == old(self).g.shapes@,
            final(self).g.geometry == old(self).g.geometry,
            final(self).state == old(self).state,
            final(self).window_settings == old(self).window_settings,
            final(self).is_loop == old(self).is_loop,
            final(self).frame_rate == old(self).frame_rate,
            final(self).frame_count == old(self).frame_count,
            final(self).redraw_requested == old(self).redraw_requested,
    {
        self.g.stroke_join(join);
    }

    /// Resume presenting a frame on every tick.
    pub fn start_loop(&mut self)
        ensures
            final(self).is_loop,
            final(self).g == old(self).g,
            final(self).state == old(self).state,
            final(self).window_settings == old(self).window_settings,
            final(self).frame_rate == old(self).frame_rate,
            final(self).frame_count == old(self).frame_count,
            final(self).redraw_requested == old(self).redraw_requested,
    {
        self.is_loop = true;
    }

    /// Stop presenting on ticks; only an explicit redraw presents.
    pub fn no_loop(&mut self)
        ensures
            !final(self).is_loop,
            final(self).g == old(self).g,
            final(self).state == old(self).state,
            final(self).window_settings == old(self).window_settings,
            final(self).frame_rate == old(self).frame_rate,
            final(self).frame_count == old(self).frame_count,
            final(self).redraw_requested == old(self).redraw_requested,
    {
        self.is_loop = false;
    }

    /// Ask for one presentation even while not looping. The host also
    /// requests a redraw tick from the platform.
    pub fn redraw(&mut self)
        ensures
            final(self).redraw_requested,
            final(self).g == old(self).g,
            final(self).state == old(self).state,
            final(self).window_settings == old(self).window_settings,
            final(self).is_loop == old(self).is_loop,
            final(self).frame_rate == old(self).frame_rate,
            final(self).frame_count == old(self).frame_count,
    {
        self.redraw_requested = true;
    }

    /// Decide what one platform event means. Close requests end the loop;
    /// a resize records the new surface size and nothing more; key and
    /// mouse-button callbacks fire on release only; a redraw tick presents
    /// while looping or when a redraw was explicitly requested, and clears
    /// the request either way.
    pub fn event_handler(&mut self, event: Event, cb: Callbacks) -> (a: Action)
        ensures
            final(self).state == old(self).state,
            final(self).g == old(self).g,
            final(self).is_loop == old(self).is_loop,
            final(self).frame_rate == old(self).frame_rate,
            final(self).frame_count == old(self).frame_count,
            match event {
                Event::CloseRequested => a == Action::Exit && final(self).window_settings == old(
                    self,
                ).window_settings && final(self).redraw_requested == old(self).redraw_requested,
                Event::Resized(w, h) => {
                    &&& a == Action::Nothing
                    &&& final(self).window_settings.width == w
                    &&& final(self).window_settings.height == h
                    &&& final(self).window_settings.title == old(self).window_settings.title
                    &&& final(self).redraw_requested == old(self).redraw_requested
                },
                Event::Keyboard { released, coded } => {
                    &&& a == (if released && coded && cb.has_key_pressed {
                        Action::InvokeKeyPressed
                    } else {
                        Action::Nothing
                    })
                    &&& final(self).window_settings == old(self).window_settings
                    &&& final(self).redraw_requested == old(self).redraw_requested
                },
                Event::CursorMoved => {
                    &&& a == (if cb.has_mouse_moved {
                        Action::InvokeMouseMoved
                    } else {
                        Action::Nothing
                    })
                    &&& final(self).window_settings == old(self).window_settings
                    &&& final(self).redraw_requested == old(self).redraw_requested
                },
                Event::MouseWheel => a == Action::Nothing && final(self).window_settings == old(
                    self,
                ).window_settings && final(self).redraw_requested == old(self).redraw_requested,
                Event::MouseButton { released } => {
                    &&& a == (if released && cb.has_mouse_clicked {
                        Action::InvokeMouseClicked
                    } else {
                        Action::Nothing
                    })
                    &&& final(self).window_settings == old(self).window_settings
                    &&& final(self).redraw_requested == old(self).redraw_requested
                },
                Event::RedrawRequested => {
                    &&& a == (if old(self).is_loop || old(self).redraw_requested {
                        Action::Draw { invoke_draw: cb.has_draw }
                    } else {
                        Action::Nothing
                    })
                    &&& final(self).window_settings == old(self).window_settings
                    &&& !final(self).redraw_requested
                },
                Event::Other => a == Action::Nothing && final(self).window_settings == old(
                    self,
                ).window_settings && final(self).redraw_requested == old(self).redraw_requested,
            },
    {
        match event {
            Event::CloseRequested => Action::Exit,
            Event::Resized(w, h) => {
                self.window_settings.width = w;
                self.window_settings.height = h;
                Action::Nothing
            },
            Event::Keyboard { released, coded } => {
                if released && coded && cb.has_key_pressed {
                    Action::InvokeKeyPressed
                } else {
                    Action::Nothing
                }
            },
            Event::CursorMoved => {
                if cb.has_mouse_moved {
                    Action::InvokeMouseMoved
                } else {
                    Action::Nothing
                }
            },
            Event::MouseWheel => Action::Nothing,
            Event::MouseButton { released } => {
                if released && cb.has_mouse_clicked {
                    Action::InvokeMouseClicked
                } else {
                    Action::Nothing
                }
            },
            Event::RedrawRequested => {
                let due = self.is_loop || self.redraw_requested;
                self.redraw_requested = false;
                if due {
                    Action::Draw { invoke_draw: cb.has_draw }
                } else {
                    Action::Nothing
                }
            },
            Event::Other => Action::Nothing,
        }
    }

    /// Clear the canvas to one color, covering the whole window.
    pub fn background(&mut self, color: Color)
        requires
            old(self).wf(),
        ensures
            background_post(
                old(self).g,
                final(self).g,
                color,
                old(self).window_settings.width,
                old(self).window_settings.height,
            ),
            final(self).state == old(self).state,
            final(self).window_settings == old(self).window_settings,
            final(self).is_loop == old(self).is_loop,
            final(self).frame_rate == old(self).frame_rate,
            final(self).frame_count == old(self).frame_count,
            final(self).redraw_requested == old(self).redraw_requested,
    {
        let w = self.window_settings.width;
        let h = self.window_settings.height;
        self.g.background(color, w, h);
    }

    /// Draw a point with the active stroke style.
    pub fn point(&mut self, x: Scalar, y: Scalar)
        requires
            old(self).wf(),
        ensures
            point_post(old(self).g, final(self).g, (x, y)),
            final(self).state == old(self).state,
            final(self).window_settings == old(self).window_settings,
            final(self).is_loop == old(self).is_loop,
            final(self).frame_rate == old(self).frame_rate,
            final(self).frame_count == old(self).frame_count,
            final(self).redraw_requested == old(self).redraw_requested,
    {
        self.g.point((x, y));
    }

    /// Draw a line with the active stroke style and cap.
    pub fn line(&mut self, x1: Scalar, y1: Scalar, x2: Scalar, y2: Scalar)
        requires
            old(self).wf(),
        ensures
            line_post(old(self).g, final(self).g, (x1, y1), (x2, y2)),
            final(self).state == old(self).state,
            final(self).window_settings == old(self).window_settings,
            final(self).is_loop == old(self).is_loop,
            final(self).frame_rate == old(self).frame_rate,
            final(self).frame_count == old(self).frame_count,
            final(self).redraw_requested == old(self).redraw_requested,
    {
        self.g.line((x1, y1), (x2, y2));
    }

    /// Draw a triangle with the active fill and stroke.
    pub fn triangle(&mut self, x1: Scalar, y1: Scalar, x2: Scalar, y2: Scalar, x3: Scalar, y3: Scalar)
        requires
            old(self).wf(),
        ensures
            triangle_post(old(self).g, final(self).g, (x1, y1), (x2, y2), (x3, y3)),
            final(self).state == old(self).state,
            final(self).window_settings == old(self).window_settings,
            final(self).is_loop == old(self).is_loop,
            final(self).frame_rate == old(self).frame_rate,
            final(self).frame_count == old(self).frame_count,
            final(self).redraw_requested == old(self).redraw_requested,
    {
        self.g.triangle((x1, y1), (x2, y2), (x3, y3));
    }

    /// Draw an axis-aligned rectangle with the active fill and stroke.
    pub fn rect(&mut self, x: Scalar, y: Scalar, width: Scalar, height: Scalar)
        requires
            old(self).wf(),
        ensures
            rect_post(old(self).g, final(self).g, x, y, width, height),
            final(self).state == old(self).state,
            final(self).window_settings == old(self).window_settings,
            final(self).is_loop == old(self).is_loop,
            final(self).frame_rate == old(self).frame_rate,
            final(self).frame_count == old(self).frame_count,
            final(self).redraw_requested == old(self).redraw_requested,
    {
        self.g.rect(x, y, width, height);
    }

    /// Draw a square with the active fill and stroke.
    pub fn square(&mut self, x: Scalar, y: Scalar, size: Scalar)
        requires
            old(self).wf(),
        ensures
            rect_post(old(self).g, final(self).g, x, y, size, size),
            final(self).state == old(self).state,
            final(self).window_settings == old(self).window_settings,
            final(self).is_loop == old(self).is_loop,
            final(self).frame_rate == old(self).frame_rate,
            final(self).frame_count == old(self).frame_count,
            final(self).redraw_requested == old(self).redraw_requested,
    {
        self.g.square(x, y, size);
    }

    /// Draw an ellipse with the active fill and stroke.
    pub fn ellipse(&mut self, x: Scalar, y: Scalar, width: Scalar, height: Scalar)
        requires
            old(self).wf(),
        ensures
            ellipse_post(old(self).g, final(self).g, x, y, width, height),
            final(self).state == old(self).state,
            final(self).window_settings == old(self).window_settings,
            final(self).is_loop == old(self).is_loop,
            final(self).frame_rate == old(self).frame_rate,
            final(self).frame_count == old(self).frame_count,
            final(self).redraw_requested == old(self).redraw_requested,
    {
        self.g.ellipse(x, y, width, height);
    }

    /// Draw a circle with the active fill and stroke.
    pub fn circle(&mut self, x: Scalar, y: Scalar, diameter: Scalar)
        requires
            old(self).wf(),
        ensures
            ellipse_post(old(self).g, final(self).g, x, y, diameter, diameter),
            final(self).state == old(self).state,
            final(self).window_settings == old(self).window_settings,
            final(self).is_loop == old(self).is_loop,
            final(self).frame_rate == old(self).frame_rate,
            final(self).frame_count == old(self).frame_count,
            final(self).redraw_requested == old(self).redraw_requested,
    {
        self.g.circle(x, y, diameter);
    }

    /// Draw a circular arc with the active fill and stroke.
    pub fn arc(&mut self, x: Scalar, y: Scalar, radius: Scalar, start: Scalar, stop: Scalar)
        requires
            old(self).wf(),
        ensures
            ellipse_arc_post(old(self).g, final(self).g, x, y, radius, radius, start, stop),
            final(self).state == old(self).state,
            final(self).window_settings == old(self).window_settings,
            final(self).is_loop == old(self).is_loop,
            final(self).frame_rate == old(self).frame_rate,
            final(self).frame_count == old(self).frame_count,
            final(self).redraw_requested == old(self).redraw_requested,
    {
        self.g.arc(x, y, radius, start, stop);
    }

    /// Open an immediate-mode polygon on the canvas.
    pub fn begin_shape(&mut self, kind: GeometryKind) -> (r: Result<(), ProtocolViolation>)
        ensures
            r is Ok <==> !old(self).g.spec_in_shape(),
            r is Err ==> *final(self) == *old(self),
            final(self).state == old(self).state,
            final(self).window_settings == old(self).window_settings,
            final(self).is_loop == old(self).is_loop,
            final(self).frame_rate == old(self).frame_rate,
            final(self).frame_count == old(self).frame_count,
            final(self).redraw_requested == old(self).redraw_requested,
            r is Ok ==> {
                &&& final(self).g.geometry is Some
                &&& final(self).g.geometry->0.kind == kind
                &&& final(self).g.geometry->0.vertices@ == Seq::<
                    crate::geometry::GeometryVertex,
                >::empty()
                &&& final(self).g.stroke_settings == old(self).g.stroke_settings
                &&& final(self).g.tape == old(self).g.tape
                &&& final(self).g.shapes@ == old(self).g.shapes@
            },
    {
        self.g.begin_shape(kind)
    }

    /// Append a vertex to the open polygon, stamped with the active style.
    pub fn vertex(&mut self, x: Scalar, y: Scalar) -> (r: Result<(), ProtocolViolation>)
        ensures
            r is Ok <==> old(self).g.spec_in_shape(),
            r is Err ==> *final(self) == *old(self),
            final(self).state == old(self).state,
            final(self).window_settings == old(self).window_settings,
            final(self).is_loop == old(self).is_loop,
            final(self).frame_rate == old(self).frame_rate,
            final(self).frame_count == old(self).frame_count,
            final(self).redraw_requested == old(self).redraw_requested,
            r is Ok ==> {
                &&& final(self).g.geometry is Some
                &&& final(self).g.geometry->0.kind == old(self).g.geometry->0.kind
                &&& final(self).g.geometry->0.vertices@ == old(
                    self,
                ).g.geometry->0.vertices@.push(
                    crate::geometry::GeometryVertex {
                        x,
                        y,
                        fill: old(self).g.stroke_settings.fill,
                        stroke: old(self).g.stroke_settings.stroke,
                        stroke_weight: old(self).g.stroke_settings.stroke_weight,
                    },
                )
                &&& final(self).g.stroke_settings == old(self).g.stroke_settings
                &&& final(self).g.tape == old(self).g.tape
                &&& final(self).g.shapes@ == old(self).g.shapes@
            },
    {
        self.g.vertex((x, y))
    }

    /// Close and tessellate the open polygon on the canvas.
    pub fn end_shape(&mut self) -> (r: Result<(), ProtocolViolation>)
        requires
            old(self).wf(),
        ensures
            r is Ok <==> old(self).g.spec_in_shape(),
            r is Err ==> *final(self) == *old(self),
            final(self).state == old(self).state,
            final(self).window_settings == old(self).window_settings,
            final(self).is_loop == old(self).is_loop,
            final(self).frame_rate == old(self).frame_rate,
            final(self).frame_count == old(self).frame_count,
            final(self).redraw_requested == old(self).redraw_requested,
            r is Ok ==> ({
                let vs = old(self).g.geometry->0.vertices@;
                let base = old(self).g.tape.len();
                let s0 = base + 2 * vs.len();
                &&& final(self).g.wf()
                &&& final(self).g.geometry is None
                &&& final(self).g.stroke_settings == old(self).g.stroke_settings
                &&& final(self).g.tape.ops@ == old(self).g.tape.ops@ + crate::graphics::poly_ops(vs)
                    + crate::graphics::poly_stroke_ops(vs, vs.len() as int, base, s0)
                &&& crate::graphics::appended2(
                    old(self).g.shapes@,
                    final(self).g.shapes@,
                    old(self).g.geometry->0.kind,
                    crate::graphics::poly_fill_verts(vs, base),
                    GeometryKind::Triangles,
                    crate::graphics::poly_stroke_verts(vs, vs.len() as int, base, s0),
                )
            }),
    {
        self.g.end_shape()
    }
}

} // verus!
