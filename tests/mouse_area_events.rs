use pick_widgets::event::{Button, Event, EventStatus, ScrollDelta, Sign};
use pick_widgets::geometry::{Point, Rectangle};
use pick_widgets::mouse_area::{area_interaction, AreaMessage, Handlers, MouseAreaState};

fn bounds() -> Rectangle {
    Rectangle::new(10, 10, 100, 50)
}

#[test]
fn press_then_quick_press_sends_double_click() {
    let mut h = Handlers::none();
    h.on_press = true;
    h.on_double_click = true;
    h.on_enter = true;
    let mut s = MouseAreaState::new();
    let at = Some(Point::new(20, 20));
    let r = s.update(h, Event::ButtonPressed(Button::Left), at, bounds(), 1000);
    assert_eq!(r.messages, vec![AreaMessage::Enter, AreaMessage::Press(Point::new(10, 10))]);
    assert_eq!(r.status, EventStatus::Captured);
    let r = s.update(h, Event::ButtonPressed(Button::Left), at, bounds(), 1100);
    assert_eq!(r.messages, vec![AreaMessage::Press(Point::new(10, 10)), AreaMessage::DoubleClick]);
    let r = s.update(h, Event::ButtonPressed(Button::Left), at, bounds(), 1150);
    assert_eq!(r.messages, vec![AreaMessage::Press(Point::new(10, 10))]);
}

#[test]
fn double_click_alone_still_captures_press() {
    let mut h = Handlers::none();
    h.on_double_click = true;
    let mut s = MouseAreaState::new();
    let r = s.update(h, Event::FingerPressed, Some(Point::new(20, 20)), bounds(), 0);
    assert!(r.messages.is_empty());
    assert_eq!(r.status, EventStatus::Captured);
    assert!(s.previous_click.is_some());
}

#[test]
fn enter_move_exit_messages() {
    let mut h = Handlers::none();
    h.on_enter = true;
    h.on_move = true;
    h.on_exit = true;
    let mut s = MouseAreaState::new();
    let r = s.update(h, Event::CursorMoved, Some(Point::new(20, 20)), bounds(), 0);
    assert_eq!(r.messages, vec![AreaMessage::Enter, AreaMessage::Move(Point::new(10, 10))]);
    assert_eq!(r.status, EventStatus::Ignored);
    let r = s.update(h, Event::CursorMoved, Some(Point::new(30, 25)), bounds(), 0);
    assert_eq!(r.messages, vec![AreaMessage::Move(Point::new(20, 15))]);
    let r = s.update(h, Event::CursorMoved, Some(Point::new(30, 25)), bounds(), 0);
    assert!(r.messages.is_empty());
    let r = s.update(h, Event::CursorMoved, Some(Point::new(300, 25)), bounds(), 0);
    assert_eq!(r.messages, vec![AreaMessage::Exit]);
}

#[test]
fn move_reported_on_entry_without_enter_handler() {
    let mut h = Handlers::none();
    h.on_move = true;
    let mut s = MouseAreaState::new();
    let r = s.update(h, Event::CursorMoved, Some(Point::new(20, 20)), bounds(), 0);
    assert_eq!(r.messages, vec![AreaMessage::Move(Point::new(10, 10))]);
}

#[test]
fn buttons_and_wheel_send_their_messages() {
    let mut h = Handlers::none();
    h.on_release = true;
    h.on_right_press = true;
    h.on_right_release = true;
    h.on_middle_press = true;
    h.on_middle_release = true;
    h.on_scroll = true;
    let mut s = MouseAreaState::new();
    let at = Some(Point::new(20, 20));
    s.update(h, Event::CursorMoved, at, bounds(), 0);
    let cases = [
        (Event::ButtonReleased(Button::Left), AreaMessage::Release),
        (Event::FingerLifted, AreaMessage::Release),
        (Event::ButtonPressed(Button::Right), AreaMessage::RightPress),
        (Event::ButtonReleased(Button::Right), AreaMessage::RightRelease),
        (Event::ButtonPressed(Button::Middle), AreaMessage::MiddlePress),
        (Event::ButtonReleased(Button::Middle), AreaMessage::MiddleRelease),
        (Event::WheelScrolled(ScrollDelta::Pixels { y: Sign::Positive }), AreaMessage::Scroll),
    ];
    for (event, message) in cases {
        let r = s.update(h, event, at, bounds(), 0);
        assert_eq!(r.messages, vec![message]);
        assert_eq!(r.status, EventStatus::Captured);
    }
    let r = s.update(h, Event::ButtonPressed(Button::Left), at, bounds(), 0);
    assert!(r.messages.is_empty());
    assert_eq!(r.status, EventStatus::Ignored);
}

#[test]
fn events_outside_region_are_ignored() {
    let mut h = Handlers::none();
    h.on_press = true;
    let mut s = MouseAreaState::new();
    let r = s.update(h, Event::ButtonPressed(Button::Left), Some(Point::new(0, 0)), bounds(), 0);
    assert!(r.messages.is_empty());
    assert_eq!(r.status, EventStatus::Ignored);
    let r = s.update(h, Event::ButtonPressed(Button::Left), None, bounds(), 0);
    assert_eq!(r.status, EventStatus::Ignored);
}

#[test]
fn own_interaction_applies_only_when_content_has_none() {
    assert_eq!(area_interaction(Some(1u8), 0u8, true, true), 1);
    assert_eq!(area_interaction(Some(1u8), 0u8, true, false), 0);
    assert_eq!(area_interaction(Some(1u8), 2u8, false, true), 2);
    assert_eq!(area_interaction(None, 0u8, true, true), 0);
}
