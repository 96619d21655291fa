//! Input events, as the widgets of this library see them.
use vstd::prelude::*;
use iced::keyboard::Modifiers;

verus! {

#[verifier::external_type_specification]
#[verifier::external_body]
pub struct ExModifiers(Modifiers);

/// Relies on `iced::keyboard::Modifiers::empty`: a set of modifiers with no key held.
pub assume_specification[ Modifiers::empty ]() -> Modifiers;

/// Relies on `iced::keyboard::Modifiers::command`: whether the platform's command key
/// (control, or the logo key on macOS) is held. Which key that is depends on the
/// platform, so nothing is stated of the result.
pub assume_specification[ Modifiers::command ](m: Modifiers) -> bool;

/// A mouse button.
#[derive(Clone, Copy, Debug, PartialEq, Eq, Structural)]
pub enum Button {
    Left,
    Right,
    Middle,
    Back,
    Forward,
    Other(u16),
}

/// The sign of a scroll amount along the vertical axis.
#[derive(Clone, Copy, Debug, PartialEq, Eq, Structural)]
pub enum Sign {
    Negative,
    Zero,
    Positive,
}

/// How far the wheel turned: in lines, or in pixels.
#[derive(Clone, Copy, Debug, PartialEq, Eq, Structural)]
pub enum ScrollDelta {
    Lines { y: Sign },
    Pixels { y: Sign },
}

/// An input event delivered to a widget.
#[derive(Clone, Copy, Debug)]
pub enum Event {
    ButtonPressed(Button),
    ButtonReleased(Button),
    CursorMoved,
    WheelScrolled(ScrollDelta),
    FingerPressed,
    FingerLifted,
    ModifiersChanged(Modifiers),
    Other,
}

/// Whether the event is a primary press: the left button or a finger.
pub open spec fn is_primary_press(e: Event) -> bool {
    e is ButtonPressed && e->ButtonPressed_0 == Button::Left || e is FingerPressed
}

/// Whether the event is a primary release: the left button or a finger.
pub open spec fn is_primary_release(e: Event) -> bool {
    e is ButtonReleased && e->ButtonReleased_0 == Button::Left || e is FingerLifted
}

/// Whether an event has been consumed by a widget or should travel on.
#[derive(Clone, Copy, Debug, PartialEq, Eq, Structural)]
pub enum EventStatus {
    Ignored,
    Captured,
}

} // verus!
