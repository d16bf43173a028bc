use crate::event::{Point, WhiteboardEvent};
use crate::geometry::{dist_sq, distance, is_isqrt};
use crate::transform::{canvas_bounded, canvas_coord, clamp_pan, clamp_zoom, Transform, wheel_zoom};
use vstd::prelude::*;

verus! {

/// Default stroke width of a new session: 3.0.
pub const DEFAULT_WIDTH: i64 = 3000;

/// Font size of committed text: 18.0.
pub const TEXT_SIZE: i64 = 18000;

/// The drawing tool that pointer input is interpreted with.
#[derive(Clone, Copy, Debug, PartialEq, Eq, Structural)]
pub enum Tool {
    Freehand,
    Line,
    Rect,
    Circle,
    Text,
    Pan,
    Zoom,
}

impl Tool {
    /// Icon shown on the tool's button.
    pub fn icon(&self) -> (r: &'static str)
        ensures
            r@ == tool_icon(*self),
    {
        match self {
            Tool::Freehand => "\u{270f}\u{fe0f}",
            Tool::Line => "\u{1f4cf}",
            Tool::Rect => "\u{2b1c}",
            Tool::Circle => "\u{2b55}",
            Tool::Text => "\u{1f170}\u{fe0f}",
            Tool::Pan => "\u{1f446}",
            Tool::Zoom => "\u{1f50d}",
        }
    }

    /// CSS cursor shown over the canvas while the tool is active.
    pub fn cursor(&self) -> (r: &'static str)
        ensures
            r@ == tool_cursor(*self),
    {
        match self {
            Tool::Freehand => FREEHAND_CURSOR,
            Tool::Line | Tool::Rect | Tool::Circle => "crosshair",
            Tool::Text => "text",
            Tool::Pan => "grab",
            Tool::Zoom => "zoom-in",
        }
    }
}

/// A small dot, centred on the pointer.
pub const FREEHAND_CURSOR: &'static str = "url('data:image/svg+xml;utf8,<svg xmlns=\"http://www.w3.org/2000/svg\" width=\"24\" height=\"24\" viewBox=\"0 0 24 24\"><circle cx=\"12\" cy=\"12\" r=\"2\" fill=\"%23000\"/></svg>') 12 12, auto";

pub open spec fn tool_icon(t: Tool) -> Seq<char> {
    match t {
        Tool::Freehand => "\u{270f}\u{fe0f}"@,
        Tool::Line => "\u{1f4cf}"@,
        Tool::Rect => "\u{2b1c}"@,
        Tool::Circle => "\u{2b55}"@,
        Tool::Text => "\u{1f170}\u{fe0f}"@,
        Tool::Pan => "\u{1f446}"@,
        Tool::Zoom => "\u{1f50d}"@,
    }
}

pub open spec fn tool_cursor(t: Tool) -> Seq<char> {
    match t {
        Tool::Freehand => FREEHAND_CURSOR@,
        Tool::Line | Tool::Rect | Tool::Circle => "crosshair"@,
        Tool::Text => "text"@,
        Tool::Pan => "grab"@,
        Tool::Zoom => "zoom-in"@,
    }
}

/// Where a client is within a pointer gesture.
#[derive(Clone, Copy, Debug, PartialEq, Eq, Structural)]
pub enum Gesture {
    Idle,
    /// Freehand stroke in progress; `last` is the latest canvas point.
    FreehandDragging { last: Point },
    /// Line, rectangle or circle being dragged out from `anchor`.
    ShapeDragging { anchor: Point },
    /// Viewport drag; the anchor is the latest screen pixel.
    Panning { anchor_x: i32, anchor_y: i32 },
    /// Waiting for the text to place at `pos`.
    TextPrompting { pos: Point },
}

pub open spec fn is_shape_tool(t: Tool) -> bool {
    t is Line || t is Rect || t is Circle
}

/// The gesture can arise under the tool, and its canvas points come from
/// the transform.
pub open spec fn gesture_fits(t: Tool, g: Gesture) -> bool {
    match g {
        Gesture::Idle => true,
        Gesture::FreehandDragging { last } => t is Freehand && canvas_bounded(last),
        Gesture::ShapeDragging { anchor } => is_shape_tool(t) && canvas_bounded(anchor),
        Gesture::Panning { .. } => t is Pan,
        Gesture::TextPrompting { pos } => t is Text && canvas_bounded(pos),
    }
}

/// The event that releasing the pointer at `to` completes, for a shape
/// dragged out from `from` with `tool`.
pub open spec fn is_shape_event(
    e: WhiteboardEvent,
    tool: Tool,
    from: Point,
    to: Point,
    color: Seq<char>,
    width: i64,
) -> bool {
    match tool {
        Tool::Line => e matches WhiteboardEvent::DrawLine { from: f, to: t, color: c, width: w } && f
            == from && t == to && c@ == color && w == width,
        Tool::Rect => e matches WhiteboardEvent::DrawRect { from: f, to: t, color: c, width: w } && f
            == from && t == to && c@ == color && w == width,
        Tool::Circle => e matches WhiteboardEvent::DrawCircle {
            center,
            radius,
            color: c,
            width: w,
        } && center == from && is_isqrt(dist_sq(from, to), radius as int) && c@ == color && w
            == width,
        _ => false,
    }
}

/// One client's drawing state: tool, gesture in progress, viewport and
/// stroke settings.
pub struct Session {
    pub tool: Tool,
    pub gesture: Gesture,
    pub transform: Transform,
    pub color: String,
    pub width: i64,
}

impl Session {
    pub open spec fn wf(&self) -> bool {
        &&& self.transform.wf()
        &&& gesture_fits(self.tool, self.gesture)
    }

    /// A fresh session: freehand tool, idle, identity viewport.
    pub fn new(color: String, width: i64) -> (s: Session)
        ensures
            s.wf(),
            s.tool == Tool::Freehand,
            s.gesture == Gesture::Idle,
            s.transform.pan_x == 0 && s.transform.pan_y == 0,
            s.transform.zoom == crate::transform::ZOOM_ONE,
            s.color@ == color@,
            s.width == width,
    {
        Session { tool: Tool::Freehand, gesture: Gesture::Idle, transform: Transform::new(), color, width }
    }

    /// Switches tool; any gesture in progress is dropped.
    pub fn select_tool(&mut self, tool: Tool)
        requires
            old(self).wf(),
        ensures
            final(self).wf(),
            final(self).tool == tool,
            final(self).gesture == Gesture::Idle,
            final(self).transform == old(self).transform,
            final(self).color@ == old(self).color@,
            final(self).width == old(self).width,
    {
        self.tool = tool;
        self.gesture = Gesture::Idle;
    }

    /// Pointer pressed at screen pixel `(sx, sy)`: starts the gesture of the
    /// current tool.
    pub fn pointer_down(&mut self, sx: i32, sy: i32)
        requires
            old(self).wf(),
        ensures
            final(self).wf(),
            final(self).tool == old(self).tool,
            final(self).transform == old(self).transform,
            final(self).color@ == old(self).color@,
            final(self).width == old(self).width,
            ({
                let t = old(self).transform;
                let p = Point {
                    x: canvas_coord(sx as int, t.pan_x as int, t.zoom as int) as i64,
                    y: canvas_coord(sy as int, t.pan_y as int, t.zoom as int) as i64,
                };
                match old(self).tool {
                    Tool::Freehand => final(self).gesture == Gesture::FreehandDragging { last: p },
                    Tool::Line | Tool::Rect | Tool::Circle => final(self).gesture
                        == Gesture::ShapeDragging { anchor: p },
                    Tool::Text => final(self).gesture == Gesture::TextPrompting { pos: p },
                    Tool::Pan => final(self).gesture == Gesture::Panning {
                        anchor_x: sx,
                        anchor_y: sy,
                    },
                    Tool::Zoom => final(self).gesture == old(self).gesture,
                }
            }),
    {
        let p = self.transform.to_canvas(sx, sy);
        match self.tool {
            Tool::Freehand => {
                self.gesture = Gesture::FreehandDragging { last: p };
            },
            Tool::Line | Tool::Rect | Tool::Circle => {
                self.gesture = Gesture::ShapeDragging { anchor: p };
            },
            Tool::Text => {
                self.gesture = Gesture::TextPrompting { pos: p };
            },
            Tool::Pan => {
                self.gesture = Gesture::Panning { anchor_x: sx, anchor_y: sy };
            },
            Tool::Zoom => {},
        }
    }

    /// Pointer moved to screen pixel `(sx, sy)`. A freehand stroke emits its
    /// next point; a pan drag moves the viewport by the screen distance since
    /// the last move and emits nothing; nothing else changes.
    pub fn pointer_move(&mut self, sx: i32, sy: i32) -> (r: Option<WhiteboardEvent>)
        requires
            old(self).wf(),
        ensures
            final(self).wf(),
            final(self).tool == old(self).tool,
            final(self).color@ == old(self).color@,
            final(self).width == old(self).width,
            ({
                let t = old(self).transform;
                let p = Point {
                    x: canvas_coord(sx as int, t.pan_x as int, t.zoom as int) as i64,
                    y: canvas_coord(sy as int, t.pan_y as int, t.zoom as int) as i64,
                };
                match old(self).gesture {
                    Gesture::FreehandDragging { .. } => {
                        &&& r == Some(WhiteboardEvent::DrawFreehand { x: p.x, y: p.y, dragging: true })
                        &&& final(self).gesture == Gesture::FreehandDragging { last: p }
                        &&& final(self).transform == t
                    },
                    Gesture::Panning { anchor_x, anchor_y } => {
                        &&& r is None
                        &&& final(self).gesture == Gesture::Panning { anchor_x: sx, anchor_y: sy }
                        &&& final(self).transform.pan_x == clamp_pan(
                            t.pan_x + (sx - anchor_x) * 1000,
                        )
                        &&& final(self).transform.pan_y == clamp_pan(
                            t.pan_y + (sy - anchor_y) * 1000,
                        )
                        &&& final(self).transform.zoom == t.zoom
                    },
                    _ => {
                        &&& r is None
                        &&& final(self).gesture == old(self).gesture
                        &&& final(self).transform == t
                    },
                }
            }),
    {
        match self.gesture {
            Gesture::FreehandDragging { .. } => {
                let p = self.transform.to_canvas(sx, sy);
                self.gesture = Gesture::FreehandDragging { last: p };
                Some(WhiteboardEvent::DrawFreehand { x: p.x, y: p.y, dragging: true })
            },
            Gesture::Panning { anchor_x, anchor_y } => {
                let dx = (sx as i64 - anchor_x as i64) * 1000;
                let dy = (sy as i64 - anchor_y as i64) * 1000;
                self.transform.pan_by(dx, dy);
                self.gesture = Gesture::Panning { anchor_x: sx, anchor_y: sy };
                None
            },
            _ => None,
        }
    }

    /// Pointer released at screen pixel `(sx, sy)`. A shape drag emits its
    /// shape from the anchor to the release point; freehand and pan drags
    /// end with nothing more; a text prompt stays open.
    pub fn pointer_up(&mut self, sx: i32, sy: i32) -> (r: Option<WhiteboardEvent>)
        requires
            old(self).wf(),
        ensures
            final(self).wf(),
            final(self).tool == old(self).tool,
            final(self).transform == old(self).transform,
            final(self).color@ == old(self).color@,
            final(self).width == old(self).width,
            ({
                let t = old(self).transform;
                let p = Point {
                    x: canvas_coord(sx as int, t.pan_x as int, t.zoom as int) as i64,
                    y: canvas_coord(sy as int, t.pan_y as int, t.zoom as int) as i64,
                };
                match old(self).gesture {
                    Gesture::ShapeDragging { anchor } => {
                        &&& r is Some
                        &&& is_shape_event(
                            r->Some_0,
                            old(self).tool,
                            anchor,
                            p,
                            old(self).color@,
                            old(self).width,
                        )
                        &&& final(self).gesture == Gesture::Idle
                    },
                    Gesture::FreehandDragging { .. } | Gesture::Panning { .. } => {
                        &&& r is None
                        &&& final(self).gesture == Gesture::Idle
                    },
                    _ => {
                        &&& r is None
                        &&& final(self).gesture == old(self).gesture
                    },
                }
            }),
    {
        match self.gesture {
            Gesture::ShapeDragging { anchor } => {
                let p = self.transform.to_canvas(sx, sy);
                let color = self.color.clone();
                let e = match self.tool {
                    Tool::Line => WhiteboardEvent::DrawLine { from: anchor, to: p, color, width: self.width },
                    Tool::Rect => WhiteboardEvent::DrawRect { from: anchor, to: p, color, width: self.width },
                    _ => {
                        let radius = distance(anchor, p);
                        WhiteboardEvent::DrawCircle { center: anchor, radius, color, width: self.width }
                    },
                };
                self.gesture = Gesture::Idle;
                Some(e)
            },
            Gesture::FreehandDragging { .. } | Gesture::Panning { .. } => {
                self.gesture = Gesture::Idle;
                None
            },
            _ => None,
        }
    }

    /// Commits the text typed at the open prompt: emits it at the prompt's
    /// position unless it is empty, and closes the prompt. Without an open
    /// prompt nothing happens.
    pub fn commit_text(&mut self, text: String) -> (r: Option<WhiteboardEvent>)
        requires
            old(self).wf(),
        ensures
            final(self).wf(),
            final(self).tool == old(self).tool,
            final(self).transform == old(self).transform,
            final(self).color@ == old(self).color@,
            final(self).width == old(self).width,
            match old(self).gesture {
                Gesture::TextPrompting { pos } => {
                    &&& final(self).gesture == Gesture::Idle
                    &&& text@.len() == 0 ==> r is None
                    &&& text@.len() > 0 ==> (r matches Some(
                        WhiteboardEvent::AddText { pos: q, text: t, color: c, size },
                    ) && q == pos && t@ == text@ && c@ == old(self).color@ && size == TEXT_SIZE)
                },
                _ => r is None && final(self).gesture == old(self).gesture,
            },
    {
        match self.gesture {
            Gesture::TextPrompting { pos } => {
                self.gesture = Gesture::Idle;
                if text.as_str().is_empty() {
                    None
                } else {
                    Some(WhiteboardEvent::AddText { pos, text, color: self.color.clone(), size: TEXT_SIZE })
                }
            },
            _ => None,
        }
    }

    /// Closes an open text prompt without emitting anything.
    pub fn cancel_text(&mut self)
        requires
            old(self).wf(),
        ensures
            final(self).wf(),
            final(self).tool == old(self).tool,
            final(self).transform == old(self).transform,
            final(self).color@ == old(self).color@,
            final(self).width == old(self).width,
            old(self).gesture is TextPrompting ==> final(self).gesture == Gesture::Idle,
            !(old(self).gesture is TextPrompting) ==> final(self).gesture == old(self).gesture,
    {
        if let Gesture::TextPrompting { .. } = self.gesture {
            self.gesture = Gesture::Idle;
        }
    }

    /// One wheel notch over the canvas; see `Transform::wheel`.
    pub fn wheel(&mut self, delta_y: i32)
        requires
            old(self).wf(),
        ensures
            final(self).wf(),
            final(self).transform.zoom == wheel_zoom(old(self).transform.zoom as int, delta_y < 0),
            final(self).transform.pan_x == old(self).transform.pan_x,
            final(self).transform.pan_y == old(self).transform.pan_y,
            final(self).tool == old(self).tool,
            final(self).gesture == old(self).gesture,
            final(self).color@ == old(self).color@,
            final(self).width == old(self).width,
    {
        self.transform.wheel(delta_y);
    }

    /// Applies an event, received or local, to this client. `Pan` and `Zoom`
    /// adjust the viewport by their delta or factor and return false; every
    /// other event leaves the state as it is and returns true: it is to be
    /// drawn, under the current viewport.
    pub fn apply_event(&mut self, e: &WhiteboardEvent) -> (drawn: bool)
        requires
            old(self).wf(),
        ensures
            final(self).wf(),
            final(self).tool == old(self).tool,
            final(self).gesture == old(self).gesture,
            final(self).color@ == old(self).color@,
            final(self).width == old(self).width,
            match *e {
                WhiteboardEvent::Pan { dx, dy } => {
                    &&& !drawn
                    &&& final(self).transform.pan_x == clamp_pan(old(self).transform.pan_x + dx)
                    &&& final(self).transform.pan_y == clamp_pan(old(self).transform.pan_y + dy)
                    &&& final(self).transform.zoom == old(self).transform.zoom
                },
                WhiteboardEvent::Zoom { factor } => {
                    &&& !drawn
                    &&& final(self).transform.zoom == clamp_zoom(
                        old(self).transform.zoom * factor / 1000,
                    )
                    &&& final(self).transform.pan_x == old(self).transform.pan_x
                    &&& final(self).transform.pan_y == old(self).transform.pan_y
                },
                _ => drawn && final(self).transform == old(self).transform,
            },
    {
        match e {
            WhiteboardEvent::Pan { dx, dy } => {
                self.transform.pan_by(*dx, *dy);
                false
            },
            WhiteboardEvent::Zoom { factor } => {
                self.transform.scale_zoom(*factor);
                false
            },
            _ => true,
        }
    }
}

} // verus!
