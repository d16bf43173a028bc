use vstd::prelude::*;

verus! {

/// A position in canvas space, in thousandths of a canvas unit.
#[derive(Clone, Copy, Debug, PartialEq, Eq, Structural)]
pub struct Point {
    pub x: i64,
    pub y: i64,
}

/// One atomic drawing or view operation, as relayed between clients.
///
/// Coordinates, radii, widths and sizes are in thousandths of a canvas unit;
/// a pan delta is in thousandths of a pixel and a zoom factor in thousandths.
#[derive(Clone, Debug)]
pub enum WhiteboardEvent {
    DrawFreehand { x: i64, y: i64, dragging: bool },
    DrawLine { from: Point, to: Point, color: String, width: i64 },
    DrawRect { from: Point, to: Point, color: String, width: i64 },
    DrawCircle { center: Point, radius: i64, color: String, width: i64 },
    AddText { pos: Point, text: String, color: String, size: i64 },
    Pan { dx: i64, dy: i64 },
    Zoom { factor: i64 },
}

} // verus!
