use image_viewer::drag::Drag;
use image_viewer::mouse_position::MousePosition;

fn pos(x: i32, y: i32) -> MousePosition {
    MousePosition::new(x, y)
}

#[test]
fn new_tracker_has_zero_delta() {
    let d = Drag::new();
    assert!(!d.dragging);
    assert_eq!(d.get_translation(), (0, 0));
}

#[test]
fn begin_then_end_returns_difference() {
    let mut d = Drag::new();
    d.mouse_down(pos(3, 4));
    let delta = d.mouse_up(pos(10, 6));
    assert_eq!(delta, (7, 2));
}

#[test]
fn delta_is_zero_after_end() {
    let mut d = Drag::new();
    d.mouse_down(pos(1, 2));
    d.mouse_move(pos(50, 60));
    let _ = d.mouse_up(pos(50, 60));
    assert!(!d.dragging);
    assert!(d.start.is_none());
    assert!(d.current.is_none());
    assert_eq!(d.get_translation(), (0, 0));
}

#[test]
fn move_updates_pending_delta() {
    let mut d = Drag::new();
    d.mouse_down(pos(0, 0));
    d.mouse_move(pos(10, 5));
    assert_eq!(d.get_translation(), (10, 5));
    d.mouse_move(pos(-3, 7));
    assert_eq!(d.get_translation(), (-3, 7));
}

#[test]
fn move_without_drag_is_noop() {
    let mut d = Drag::new();
    d.mouse_move(pos(5, 5));
    assert!(!d.dragging);
    assert_eq!(d.get_translation(), (0, 0));
}

#[test]
fn end_without_drag_returns_zero() {
    let mut d = Drag::new();
    let delta = d.mouse_up(pos(9, 9));
    assert_eq!(delta, (0, 0));
    assert!(!d.dragging);
    assert!(d.start.is_none());
    assert!(d.current.is_none());
}

#[test]
fn begin_while_active_restarts_from_new_anchor() {
    let mut d = Drag::new();
    d.mouse_down(pos(0, 0));
    d.mouse_move(pos(5, 5));
    d.mouse_down(pos(100, 100));
    assert_eq!(d.get_translation(), (0, 0));
    d.mouse_move(pos(103, 104));
    assert_eq!(d.get_translation(), (3, 4));
}

#[test]
fn extreme_coordinates_do_not_overflow() {
    let mut d = Drag::new();
    d.mouse_down(pos(i32::MAX, i32::MIN));
    let delta = d.mouse_up(pos(i32::MIN, i32::MAX));
    assert_eq!(delta, (i32::MIN as i64 - i32::MAX as i64, i32::MAX as i64 - i32::MIN as i64));
    assert_eq!(delta, (-4294967295, 4294967295));
}
