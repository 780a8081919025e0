use image_viewer::drag::Drag;
use image_viewer::mouse_position::MousePosition;
use image_viewer::viewport::{Action, Viewport, WheelDirection, STATE_LIMIT};

fn pos(x: i32, y: i32) -> MousePosition {
    MousePosition::new(x, y)
}

#[test]
fn initial_state_is_identity() {
    let v = Viewport::new();
    assert_eq!(v.zoom_num, 1);
    assert_eq!(v.den, 1);
    assert_eq!(v.tx_num, 0);
    assert_eq!(v.ty_num, 0);
    assert!(!v.drag.dragging);
}

#[test]
fn resize_with_no_prior_events_redraws_identity() {
    let mut v = Viewport::new();
    let action = v.on_resize();
    assert_eq!(action, Action::ResizeAndRedraw);
    let t = v.effective_transform();
    assert_eq!((t.scale.num, t.scale.den), (1, 1));
    assert_eq!((t.tx.num, t.tx.den), (0, 1));
    assert_eq!((t.ty.num, t.ty.den), (0, 1));
}

#[test]
fn wheel_in_zooms_at_cursor() {
    // From zoom 1, translation (0, 0): one notch in at (100, 50) gives
    // zoom 1.2 = 6/5 and translation ((0-100)*1.2+100, (0-50)*1.2+50) = (-20, -10).
    let mut v = Viewport::new();
    let action = v.on_wheel(WheelDirection::ZoomIn, pos(100, 50));
    assert_eq!(action, Action::Redraw);
    assert_eq!((v.zoom_num, v.den), (6, 5));
    assert_eq!(v.tx_num, -20 * v.den);
    assert_eq!(v.ty_num, -10 * v.den);
}

#[test]
fn wheel_out_zooms_out_at_cursor() {
    // One notch out at (100, 50): zoom 5/6, translation ((0-100)/1.2+100, ...) = (100/6, 50/6).
    let mut v = Viewport::new();
    let action = v.on_wheel(WheelDirection::ZoomOut, pos(100, 50));
    assert_eq!(action, Action::Redraw);
    assert_eq!((v.zoom_num, v.den), (5, 6));
    assert_eq!(v.tx_num, 100);
    assert_eq!(v.ty_num, 50);
}

#[test]
fn wheel_keeps_cursor_point_fixed() {
    // From the identity view the image point under the cursor (100, 50) is
    // (100, 50) itself; after a notch in its screen position is unchanged:
    // zoom * w + translation == cursor, with denominators cleared.
    let mut v = Viewport::new();
    v.on_wheel(WheelDirection::ZoomIn, pos(100, 50));
    assert_eq!(v.zoom_num * 100 + v.tx_num, 100 * v.den);
    assert_eq!(v.zoom_num * 50 + v.ty_num, 50 * v.den);
    // and again after a second notch at the same cursor
    v.on_wheel(WheelDirection::ZoomIn, pos(100, 50));
    assert_eq!(v.zoom_num * 100 + v.tx_num, 100 * v.den);
    assert_eq!(v.zoom_num * 50 + v.ty_num, 50 * v.den);
}

#[test]
fn opposite_wheel_events_cancel_exactly() {
    let mut v = Viewport::new();
    v.on_wheel(WheelDirection::ZoomIn, pos(100, 50));
    v.on_wheel(WheelDirection::ZoomOut, pos(100, 50));
    // zoom is exactly 1 and translation exactly (0, 0) again
    assert_eq!(v.zoom_num, v.den);
    assert_eq!(v.tx_num, 0);
    assert_eq!(v.ty_num, 0);
}

#[test]
fn opposite_wheel_events_cancel_from_panned_state() {
    let mut v = Viewport::new();
    v.on_pointer_down(1, pos(0, 0));
    v.on_pointer_up(1, pos(7, -9));
    assert_eq!((v.tx_num, v.ty_num, v.den), (7, -9, 1));
    v.on_wheel(WheelDirection::ZoomOut, pos(33, -20));
    v.on_wheel(WheelDirection::ZoomIn, pos(33, -20));
    // values are restored: tx/den == 7, ty/den == -9, zoom == 1
    assert_eq!(v.tx_num, 7 * v.den);
    assert_eq!(v.ty_num, -9 * v.den);
    assert_eq!(v.zoom_num, v.den);
}

#[test]
fn wheel_is_ignored_while_dragging() {
    let mut v = Viewport::new();
    v.on_pointer_down(1, pos(5, 5));
    let action = v.on_wheel(WheelDirection::ZoomIn, pos(100, 50));
    assert_eq!(action, Action::NoRedraw);
    assert_eq!((v.zoom_num, v.den), (1, 1));
    assert_eq!((v.tx_num, v.ty_num), (0, 0));
    assert!(v.drag.dragging);
    assert_eq!(v.drag.start, Some(pos(5, 5)));
    assert_eq!(v.drag.current, Some(pos(5, 5)));
}

#[test]
fn reset_restores_identity_and_is_idempotent() {
    let mut v = Viewport::new();
    v.on_wheel(WheelDirection::ZoomIn, pos(100, 50));
    v.on_pointer_down(2, pos(0, 0));
    v.on_pointer_up(2, pos(40, 30));
    let action = v.on_reset();
    assert_eq!(action, Action::Redraw);
    assert_eq!((v.zoom_num, v.den), (1, 1));
    assert_eq!((v.tx_num, v.ty_num), (0, 0));
    let again = v.on_reset();
    assert_eq!(again, Action::Redraw);
    assert_eq!((v.zoom_num, v.den), (1, 1));
    assert_eq!((v.tx_num, v.ty_num), (0, 0));
}

#[test]
fn reset_during_drag_keeps_drag_state() {
    let mut v = Viewport::new();
    v.on_pointer_down(1, pos(3, 4));
    v.on_reset();
    assert!(v.drag.dragging);
    assert_eq!(v.drag.start, Some(pos(3, 4)));
}

#[test]
fn drag_commits_translation() {
    // begin((0,0)), move((10,5)), end((10,5)) commits translation (10, 5)
    // and clears the tracker.
    let mut v = Viewport::new();
    v.on_pointer_down(1, pos(0, 0));
    let moved = v.on_pointer_move(pos(10, 5));
    assert_eq!(moved, Action::Redraw);
    let action = v.on_pointer_up(1, pos(10, 5));
    assert_eq!(action, Action::Redraw);
    assert_eq!(v.tx_num, 10 * v.den);
    assert_eq!(v.ty_num, 5 * v.den);
    assert!(!v.drag.dragging);
    assert!(v.drag.start.is_none());
    assert!(v.drag.current.is_none());
}

#[test]
fn drag_delta_is_screen_pixels_whatever_the_zoom() {
    let mut v = Viewport::new();
    v.on_wheel(WheelDirection::ZoomIn, pos(100, 50));
    assert_eq!((v.tx_num, v.ty_num, v.den), (-100, -50, 5));
    v.on_pointer_down(1, pos(0, 0));
    v.on_pointer_up(1, pos(10, 5));
    // the raw screen-pixel delta is added: -20 + 10 and -10 + 5
    assert_eq!(v.tx_num, -10 * v.den);
    assert_eq!(v.ty_num, -5 * v.den);
}

#[test]
fn effective_transform_includes_pending_drag() {
    let mut v = Viewport::new();
    v.on_pointer_down(1, pos(0, 0));
    v.on_pointer_move(pos(10, 5));
    let t = v.effective_transform();
    assert_eq!((t.scale.num, t.scale.den), (1, 1));
    assert_eq!((t.tx.num, t.tx.den), (10, 1));
    assert_eq!((t.ty.num, t.ty.den), (5, 1));
    // the committed state itself is untouched until the drag ends
    assert_eq!((v.tx_num, v.ty_num), (0, 0));
}

#[test]
fn only_accepted_buttons_start_and_end_drags() {
    let mut v = Viewport::new();
    let a = v.on_pointer_down(0, pos(1, 1));
    assert_eq!(a, Action::NoRedraw);
    assert!(!v.drag.dragging);
    v.on_pointer_down(3, pos(1, 1));
    assert!(!v.drag.dragging);
    v.on_pointer_down(1, pos(1, 1));
    assert!(v.drag.dragging);
    // a pointer-up with an unaccepted button leaves the drag running
    let b = v.on_pointer_up(0, pos(9, 9));
    assert_eq!(b, Action::NoRedraw);
    assert!(v.drag.dragging);
    v.on_pointer_up(2, pos(9, 9));
    assert!(!v.drag.dragging);
    assert_eq!((v.tx_num, v.ty_num), (8, 8));
}

#[test]
fn pointer_move_without_drag_is_noop() {
    let mut v = Viewport::new();
    let action = v.on_pointer_move(pos(42, 42));
    assert_eq!(action, Action::NoRedraw);
    assert!(!v.drag.dragging);
    assert_eq!((v.tx_num, v.ty_num), (0, 0));
}

#[test]
fn pointer_up_without_drag_commits_nothing() {
    let mut v = Viewport::new();
    let action = v.on_pointer_up(1, pos(42, 42));
    assert_eq!(action, Action::Redraw);
    assert_eq!((v.tx_num, v.ty_num), (0, 0));
    assert!(!v.drag.dragging);
}

#[test]
fn commit_at_stored_bound_keeps_translation() {
    let dragging = Drag { dragging: true, start: Some(pos(0, 0)), current: Some(pos(0, 0)) };
    let mut v = Viewport { zoom_num: 1, tx_num: STATE_LIMIT, ty_num: 0, den: 1, drag: dragging };
    let action = v.on_pointer_up(1, pos(5, 3));
    assert_eq!(action, Action::Redraw);
    // the x commit would leave the stored bound and is dropped; y commits
    assert_eq!(v.tx_num, STATE_LIMIT);
    assert_eq!(v.ty_num, 3);
    assert!(!v.drag.dragging);
}

#[test]
fn wheel_at_stored_bound_is_ignored() {
    let cleared = Drag { dragging: false, start: None, current: None };
    let mut v = Viewport { zoom_num: STATE_LIMIT, tx_num: 0, ty_num: 0, den: 1, drag: cleared };
    let action = v.on_wheel(WheelDirection::ZoomIn, pos(0, 0));
    assert_eq!(action, Action::NoRedraw);
    assert_eq!(v.zoom_num, STATE_LIMIT);
    assert_eq!((v.tx_num, v.ty_num, v.den), (0, 0, 1));

    let cleared = Drag { dragging: false, start: None, current: None };
    let mut v = Viewport { zoom_num: 1, tx_num: 0, ty_num: 0, den: STATE_LIMIT, drag: cleared };
    let action = v.on_wheel(WheelDirection::ZoomOut, pos(0, 0));
    assert_eq!(action, Action::NoRedraw);
    assert_eq!(v.den, STATE_LIMIT);
}
