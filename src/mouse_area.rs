//! A region that turns pointer events into messages: presses, releases,
//! double clicks, scrolling, and the pointer entering, moving in and leaving it.
use vstd::prelude::*;
use crate::click::{Click, ClickKind, kind_of};
use crate::event::{Button, Event, EventStatus, is_primary_press, is_primary_release};
use crate::geometry::{Point, Rectangle, is_over, position_in, cursor_is_over, cursor_position_in};
use crate::hover::{HoverTracker, Transition};

verus! {

/// Which messages the application asked for.
#[derive(Clone, Copy, Debug, PartialEq, Eq, Structural)]
pub struct Handlers {
    pub on_press: bool,
    pub on_release: bool,
    pub on_double_click: bool,
    pub on_right_press: bool,
    pub on_right_release: bool,
    pub on_middle_press: bool,
    pub on_middle_release: bool,
    pub on_scroll: bool,
    pub on_enter: bool,
    pub on_move: bool,
    pub on_exit: bool,
}

impl Handlers {
    /// No message asked for.
    pub fn none() -> (r: Handlers)
        ensures
            r == (Handlers {
                on_press: false,
                on_release: false,
                on_double_click: false,
                on_right_press: false,
                on_right_release: false,
                on_middle_press: false,
                on_middle_release: false,
                on_scroll: false,
                on_enter: false,
                on_move: false,
                on_exit: false,
            }),
    {
        Handlers {
            on_press: false,
            on_release: false,
            on_double_click: false,
            on_right_press: false,
            on_right_release: false,
            on_middle_press: false,
            on_middle_release: false,
            on_scroll: false,
            on_enter: false,
            on_move: false,
            on_exit: false,
        }
    }
}

/// A message the region sends. Positions are relative to the region's corner.
#[derive(Clone, Copy, Debug, PartialEq, Eq, Structural)]
pub enum AreaMessage {
    Press(Point),
    Release,
    DoubleClick,
    RightPress,
    RightRelease,
    MiddlePress,
    MiddleRelease,
    Scroll,
    Enter,
    Move(Point),
    Exit,
}

/// The state a region keeps between events.
#[derive(Clone, Copy, Debug, PartialEq, Eq, Structural)]
pub struct MouseAreaState {
    pub hover: HoverTracker,
    /// The last press classified, to pair the next one with.
    pub previous_click: Option<Click>,
}

/// The messages an event led to, in order, and whether it was captured.
#[derive(Clone, Debug)]
pub struct AreaOutcome {
    pub messages: Vec<AreaMessage>,
    pub status: EventStatus,
}

/// The hover messages a transition sends, each only when asked for: on
/// entering, the entry and then the position; while over the region, the
/// position; on leaving, the exit.
pub open spec fn hover_messages(t: Transition, h: Handlers) -> Seq<AreaMessage> {
    let enter: Seq<AreaMessage> = if t.entered && h.on_enter { seq![AreaMessage::Enter] } else { seq![] };
    let moved: Seq<AreaMessage> = if t.moved is Some && h.on_move {
        seq![AreaMessage::Move(t.moved.unwrap())]
    } else {
        seq![]
    };
    let exit: Seq<AreaMessage> = if t.exited && h.on_exit { seq![AreaMessage::Exit] } else { seq![] };
    enter + moved + exit
}

/// The message of a release, of a right or middle button, or of the wheel.
pub open spec fn button_message(h: Handlers, e: Event) -> Option<AreaMessage> {
    if h.on_release && is_primary_release(e) {
        Some(AreaMessage::Release)
    } else if h.on_right_press && e == Event::ButtonPressed(Button::Right) {
        Some(AreaMessage::RightPress)
    } else if h.on_right_release && e == Event::ButtonReleased(Button::Right) {
        Some(AreaMessage::RightRelease)
    } else if h.on_middle_press && e == Event::ButtonPressed(Button::Middle) {
        Some(AreaMessage::MiddlePress)
    } else if h.on_middle_release && e == Event::ButtonReleased(Button::Middle) {
        Some(AreaMessage::MiddleRelease)
    } else if h.on_scroll && e is WheelScrolled {
        Some(AreaMessage::Scroll)
    } else {
        None
    }
}

/// The region's handling of `event` at `time_ms`. The hover is brought up to
/// date first, and sends its messages. Over the region, a primary press then
/// sends the press message, and is classified against the previous press to
/// send the double-click message; either one asked for captures it. Other
/// buttons and the wheel send their one message when asked for.
pub open spec fn area_step(
    s: MouseAreaState,
    h: Handlers,
    event: Event,
    cursor: Option<Point>,
    bounds: Rectangle,
    time_ms: u64,
) -> (MouseAreaState, Seq<AreaMessage>, EventStatus) {
    let s1 = MouseAreaState { hover: s.hover.next(cursor, bounds), ..s };
    let first = hover_messages(s.hover.transition(cursor, bounds), h);
    if !is_over(cursor, bounds) {
        (s1, first, EventStatus::Ignored)
    } else if is_primary_press(event) && (h.on_press || h.on_double_click) {
        let press = if h.on_press { seq![AreaMessage::Press(position_in(cursor, bounds).unwrap())] } else { seq![] };
        if h.on_double_click {
            let p = cursor.unwrap();
            let c = Click { position: p, button: Button::Left, time_ms, kind: kind_of(p, Button::Left, time_ms, s.previous_click) };
            let double = if c.kind == ClickKind::Double { seq![AreaMessage::DoubleClick] } else { seq![] };
            (MouseAreaState { previous_click: Some(c), ..s1 }, first + press + double, EventStatus::Captured)
        } else {
            (s1, first + press, EventStatus::Captured)
        }
    } else {
        match button_message(h, event) {
            Some(m) => (s1, first.push(m), EventStatus::Captured),
            None => (s1, first, EventStatus::Ignored),
        }
    }
}

fn message_for_button(h: Handlers, e: Event) -> (r: Option<AreaMessage>)
    ensures
        r == button_message(h, e),
{
    match e {
        Event::ButtonReleased(Button::Left) if h.on_release => Some(AreaMessage::Release),
        Event::FingerLifted if h.on_release => Some(AreaMessage::Release),
        Event::ButtonPressed(Button::Right) if h.on_right_press => Some(AreaMessage::RightPress),
        Event::ButtonReleased(Button::Right) if h.on_right_release => Some(AreaMessage::RightRelease),
        Event::ButtonPressed(Button::Middle) if h.on_middle_press => Some(AreaMessage::MiddlePress),
        Event::ButtonReleased(Button::Middle) if h.on_middle_release => Some(AreaMessage::MiddleRelease),
        Event::WheelScrolled(_) if h.on_scroll => Some(AreaMessage::Scroll),
        _ => None,
    }
}

impl MouseAreaState {
    /// The hover tracker is consistent.
    pub open spec fn wf(self) -> bool {
        self.hover.wf()
    }

    /// A region that has seen no pointer and no press.
    pub fn new() -> (r: MouseAreaState)
        ensures
            r.wf(),
            r.hover == HoverTracker::new_spec(),
            r.previous_click is None,
    {
        MouseAreaState { hover: HoverTracker::new(), previous_click: None }
    }

    /// Handles an event at `time_ms`, a reading in milliseconds of a clock
    /// that never goes back.
    pub fn update(
        &mut self,
        h: Handlers,
        event: Event,
        cursor: Option<Point>,
        bounds: Rectangle,
        time_ms: u64,
    ) -> (r: AreaOutcome)
        ensures
            (*final(self), r.messages@, r.status) == area_step(*old(self), h, event, cursor, bounds, time_ms),
            old(self).wf() ==> final(self).wf(),
    {
        let t = self.hover.update(cursor, bounds);
        let mut messages: Vec<AreaMessage> = Vec::new();
        if t.entered && h.on_enter {
            messages.push(AreaMessage::Enter);
        }
        if t.moved.is_some() && h.on_move {
            messages.push(AreaMessage::Move(t.moved.unwrap()));
        }
        if t.exited && h.on_exit {
            messages.push(AreaMessage::Exit);
        }
        proof {
            assert(messages@ =~= hover_messages(old(self).hover.transition(cursor, bounds), h));
        }
        if !cursor_is_over(cursor, bounds) {
            return AreaOutcome { messages, status: EventStatus::Ignored };
        }
        let primary = match event {
            Event::ButtonPressed(b) => b == Button::Left,
            Event::FingerPressed => true,
            _ => false,
        };
        if primary && (h.on_press || h.on_double_click) {
            let ghost first = messages@;
            if h.on_press {
                if let Some(p) = cursor_position_in(cursor, bounds) {
                    messages.push(AreaMessage::Press(p));
                }
            }
            let ghost with_press = messages@;
            if h.on_double_click {
                if let Some(p) = cursor {
                    let c = Click::new(p, Button::Left, time_ms, self.previous_click);
                    if c.kind() == ClickKind::Double {
                        messages.push(AreaMessage::DoubleClick);
                    }
                    self.previous_click = Some(c);
                }
            }
            proof {
                if h.on_double_click {
                    let p = cursor.unwrap();
                    let k = kind_of(p, Button::Left, time_ms, old(self).previous_click);
                    if k == ClickKind::Double {
                        assert(messages@ =~= with_press + seq![AreaMessage::DoubleClick]);
                    } else {
                        assert(messages@ =~= with_press + seq![]);
                    }
                } else {
                    assert(messages@ =~= with_press);
                }
                if h.on_press {
                    assert(with_press =~= first + seq![AreaMessage::Press(position_in(cursor, bounds).unwrap())]);
                } else {
                    assert(with_press =~= first + seq![]);
                }
            }
            return AreaOutcome { messages, status: EventStatus::Captured };
        }
        let m = message_for_button(h, event);
        match m {
            Some(msg) => {
                messages.push(msg);
                AreaOutcome { messages, status: EventStatus::Captured }
            },
            None => AreaOutcome { messages, status: EventStatus::Ignored },
        }
    }
}

/// The mouse cursor shape over a region: its own, when it has one, the
/// cursor is over it and its content asks for none; otherwise the content's.
pub fn area_interaction<I>(own: Option<I>, content: I, content_asks_none: bool, cursor_over: bool) -> (r: I)
    ensures
        r == (if own is Some && content_asks_none && cursor_over { own.unwrap() } else { content }),
{
    match own {
        Some(i) => if content_asks_none && cursor_over { i } else { content },
        None => content,
    }
}

} // verus!
