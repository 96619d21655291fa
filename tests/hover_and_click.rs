use pick_widgets::click::{Click, ClickKind, DOUBLE_CLICK_WINDOW_MS};
use pick_widgets::event::Button;
use pick_widgets::geometry::{Point, Rectangle};
use pick_widgets::hover::{HoverTracker, Transition};

fn bounds() -> Rectangle {
    Rectangle::new(10, 10, 100, 50)
}

#[test]
fn hover_enter_reports_entry_and_local_position() {
    let mut h = HoverTracker::new();
    let t = h.update(Some(Point::new(15, 20)), bounds());
    assert_eq!(t, Transition { entered: true, exited: false, moved: Some(Point::new(5, 10)) });
    assert!(h.is_hovered());
}

#[test]
fn hover_move_inside_reports_position_only() {
    let mut h = HoverTracker::new();
    h.update(Some(Point::new(15, 20)), bounds());
    let t = h.update(Some(Point::new(30, 40)), bounds());
    assert_eq!(t, Transition { entered: false, exited: false, moved: Some(Point::new(20, 30)) });
}

#[test]
fn hover_exit_reports_exit() {
    let mut h = HoverTracker::new();
    h.update(Some(Point::new(15, 20)), bounds());
    let t = h.update(Some(Point::new(500, 20)), bounds());
    assert_eq!(t, Transition { entered: false, exited: true, moved: None });
    assert!(!h.is_hovered());
    let t = h.update(None, bounds());
    assert_eq!(t, Transition::none());
}

#[test]
fn hover_update_twice_with_same_input_reports_nothing() {
    let mut h = HoverTracker::new();
    let first = h.update(Some(Point::new(15, 20)), bounds());
    assert!(first.entered);
    let before = h;
    let second = h.update(Some(Point::new(15, 20)), bounds());
    assert_eq!(second, Transition::none());
    assert_eq!(h, before);
}

#[test]
fn hover_bounds_change_reevaluates() {
    let mut h = HoverTracker::new();
    h.update(Some(Point::new(15, 20)), bounds());
    let t = h.update(Some(Point::new(15, 20)), Rectangle::new(100, 100, 10, 10));
    assert!(t.exited);
}

#[test]
fn two_close_presses_make_a_double_click_and_a_late_third_is_single() {
    let p = Point::new(40, 40);
    let c1 = Click::new(p, Button::Left, 1000, None);
    assert_eq!(c1.kind(), ClickKind::Single);
    let c2 = Click::new(p, Button::Left, 1200, Some(c1));
    assert_eq!(c2.kind(), ClickKind::Double);
    let c3 = Click::new(p, Button::Left, 1200 + DOUBLE_CLICK_WINDOW_MS + 1, Some(c2));
    assert_eq!(c3.kind(), ClickKind::Single);
}

#[test]
fn rapid_presses_alternate_single_and_double() {
    let p = Point::new(1, 1);
    let c1 = Click::new(p, Button::Left, 0, None);
    let c2 = Click::new(p, Button::Left, 100, Some(c1));
    let c3 = Click::new(p, Button::Left, 200, Some(c2));
    let c4 = Click::new(p, Button::Left, 300, Some(c3));
    assert_eq!(
        [c1.kind, c2.kind, c3.kind, c4.kind],
        [ClickKind::Single, ClickKind::Double, ClickKind::Single, ClickKind::Double]
    );
}

#[test]
fn double_click_window_edges() {
    let p = Point::new(1, 1);
    let c1 = Click::new(p, Button::Left, 500, None);
    assert_eq!(Click::new(p, Button::Left, 500 + DOUBLE_CLICK_WINDOW_MS, Some(c1)).kind, ClickKind::Double);
    assert_eq!(Click::new(p, Button::Left, 500, Some(c1)).kind, ClickKind::Single);
    assert_eq!(Click::new(p, Button::Left, 400, Some(c1)).kind, ClickKind::Single);
}

#[test]
fn presses_elsewhere_or_with_another_button_are_single() {
    let p = Point::new(1, 1);
    let c1 = Click::new(p, Button::Left, 0, None);
    assert_eq!(Click::new(Point::new(2, 1), Button::Left, 100, Some(c1)).kind, ClickKind::Single);
    assert_eq!(Click::new(p, Button::Right, 100, Some(c1)).kind, ClickKind::Single);
}
