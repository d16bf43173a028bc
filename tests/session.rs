use whiteboard::event::{Point, WhiteboardEvent};
use whiteboard::session::{Gesture, Session, Tool, DEFAULT_WIDTH, TEXT_SIZE};

fn session(tool: Tool, color: &str, width: i64) -> Session {
    let mut s = Session::new(color.to_string(), width);
    s.select_tool(tool);
    s
}

#[test]
fn rect_gesture_emits_one_rect() {
    let mut s = session(Tool::Rect, "#000000", 2000);
    s.pointer_down(10, 10);
    assert!(s.pointer_move(20, 15).is_none());
    assert!(s.pointer_move(45, 35).is_none());
    match s.pointer_up(50, 40) {
        Some(WhiteboardEvent::DrawRect { from, to, color, width }) => {
            assert_eq!(from, Point { x: 10_000, y: 10_000 });
            assert_eq!(to, Point { x: 50_000, y: 40_000 });
            assert_eq!(color, "#000000");
            assert_eq!(width, 2000);
        }
        other => panic!("unexpected {:?}", other),
    }
    assert_eq!(s.gesture, Gesture::Idle);
}

#[test]
fn line_gesture_emits_line() {
    let mut s = session(Tool::Line, "#dc2626", DEFAULT_WIDTH);
    s.pointer_down(1, 2);
    match s.pointer_up(3, 4) {
        Some(WhiteboardEvent::DrawLine { from, to, color, width }) => {
            assert_eq!(from, Point { x: 1000, y: 2000 });
            assert_eq!(to, Point { x: 3000, y: 4000 });
            assert_eq!(color, "#dc2626");
            assert_eq!(width, DEFAULT_WIDTH);
        }
        other => panic!("unexpected {:?}", other),
    }
}

#[test]
fn circle_radius_is_distance_to_release() {
    let mut s = session(Tool::Circle, "#059669", 1000);
    s.pointer_down(0, 0);
    match s.pointer_up(3, 4) {
        Some(WhiteboardEvent::DrawCircle { center, radius, .. }) => {
            assert_eq!(center, Point { x: 0, y: 0 });
            assert_eq!(radius, 5000);
        }
        other => panic!("unexpected {:?}", other),
    }
}

#[test]
fn freehand_emits_each_point() {
    let mut s = session(Tool::Freehand, "#2563eb", DEFAULT_WIDTH);
    assert!(s.pointer_move(5, 5).is_none());
    s.pointer_down(5, 5);
    assert_eq!(s.gesture, Gesture::FreehandDragging { last: Point { x: 5000, y: 5000 } });
    match s.pointer_move(6, 8) {
        Some(WhiteboardEvent::DrawFreehand { x, y, dragging }) => {
            assert_eq!((x, y, dragging), (6000, 8000, true));
        }
        other => panic!("unexpected {:?}", other),
    }
    assert_eq!(s.gesture, Gesture::FreehandDragging { last: Point { x: 6000, y: 8000 } });
    assert!(s.pointer_up(6, 8).is_none());
    assert_eq!(s.gesture, Gesture::Idle);
    assert!(s.pointer_move(7, 9).is_none());
}

#[test]
fn pan_drag_moves_viewport_without_events() {
    let mut s = session(Tool::Pan, "#2563eb", DEFAULT_WIDTH);
    s.pointer_down(100, 100);
    assert!(s.pointer_move(110, 95).is_none());
    assert_eq!((s.transform.pan_x, s.transform.pan_y), (10_000, -5_000));
    assert!(s.pointer_move(120, 95).is_none());
    assert_eq!((s.transform.pan_x, s.transform.pan_y), (20_000, -5_000));
    assert!(s.pointer_up(120, 95).is_none());
    assert_eq!(s.gesture, Gesture::Idle);
    // later input is converted under the new pan
    s.select_tool(Tool::Rect);
    s.pointer_down(20, 0);
    assert_eq!(s.gesture, Gesture::ShapeDragging { anchor: Point { x: 0, y: 5000 } });
}

#[test]
fn zoomed_input_is_scaled() {
    let mut s = session(Tool::Line, "#000000", 1000);
    s.wheel(-1);
    assert_eq!(s.transform.zoom, 1100);
    s.pointer_down(11, 22);
    assert_eq!(s.gesture, Gesture::ShapeDragging { anchor: Point { x: 10_000, y: 20_000 } });
}

#[test]
fn text_commit_and_cancel() {
    let mut s = session(Tool::Text, "#7c3aed", DEFAULT_WIDTH);
    s.pointer_down(30, 40);
    assert_eq!(s.gesture, Gesture::TextPrompting { pos: Point { x: 30_000, y: 40_000 } });
    assert!(s.pointer_up(30, 40).is_none());
    match s.commit_text("hello".to_string()) {
        Some(WhiteboardEvent::AddText { pos, text, color, size }) => {
            assert_eq!(pos, Point { x: 30_000, y: 40_000 });
            assert_eq!(text, "hello");
            assert_eq!(color, "#7c3aed");
            assert_eq!(size, TEXT_SIZE);
        }
        other => panic!("unexpected {:?}", other),
    }
    assert_eq!(s.gesture, Gesture::Idle);
    assert!(s.commit_text("late".to_string()).is_none());

    s.pointer_down(1, 1);
    assert!(s.commit_text(String::new()).is_none());
    assert_eq!(s.gesture, Gesture::Idle);

    s.pointer_down(1, 1);
    s.cancel_text();
    assert_eq!(s.gesture, Gesture::Idle);
}

#[test]
fn tool_switch_drops_gesture() {
    let mut s = session(Tool::Rect, "#000000", 1000);
    s.pointer_down(1, 1);
    s.select_tool(Tool::Line);
    assert_eq!(s.gesture, Gesture::Idle);
    assert!(s.pointer_up(5, 5).is_none());
}

#[test]
fn received_pan_and_zoom_adjust_viewport() {
    let mut s = session(Tool::Freehand, "#000000", 1000);
    assert!(!s.apply_event(&WhiteboardEvent::Pan { dx: 2500, dy: -1000 }));
    assert_eq!((s.transform.pan_x, s.transform.pan_y), (2500, -1000));
    assert!(!s.apply_event(&WhiteboardEvent::Zoom { factor: 2000 }));
    assert_eq!(s.transform.zoom, 2000);
    assert!(!s.apply_event(&WhiteboardEvent::Zoom { factor: 100_000 }));
    assert_eq!(s.transform.zoom, 5000);
    let before = s.transform;
    assert!(s.apply_event(&WhiteboardEvent::DrawFreehand { x: 1, y: 2, dragging: true }));
    assert_eq!(s.transform, before);
}

#[test]
fn tool_icons_and_cursors() {
    assert_eq!(Tool::Line.cursor(), "crosshair");
    assert_eq!(Tool::Circle.cursor(), "crosshair");
    assert_eq!(Tool::Text.cursor(), "text");
    assert_eq!(Tool::Pan.cursor(), "grab");
    assert_eq!(Tool::Zoom.cursor(), "zoom-in");
    assert!(Tool::Freehand.cursor().starts_with("url("));
    assert_eq!(Tool::Zoom.icon(), "\u{1f50d}");
    assert_eq!(Tool::Rect.icon(), "\u{2b1c}");
}
