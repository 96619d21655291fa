//! The pick list's state machine: opening and closing its dropdown list,
//! choosing from it, and stepping through the options with the command key
//! held and the wheel turned.
use vstd::prelude::*;
use vstd::std_specs::cmp::PartialEqSpec;
use iced::keyboard::Modifiers;
use crate::event::{Button, Event, EventStatus, ScrollDelta, Sign, is_primary_press};
use crate::geometry::{Point, Rectangle, is_over, cursor_is_over};
use crate::menu::{ListGeometry, list_hover_after, list_outcome, update_list};
use crate::rows::{as_int, disabled_at, is_disabled, mask_view};
use crate::selector::{Direction, anchor_of, deref_option, next_index, next_option, position_of};

verus! {

/// The possible status of a pick list, which decides how its field is drawn.
#[derive(Clone, Copy, Debug, PartialEq, Eq, Structural)]
pub enum Status {
    /// The pick list can be interacted with.
    Active,
    /// The pick list is being hovered.
    Hovered,
    /// The pick list is open.
    Opened,
}

/// Which optional messages the application asked for.
#[derive(Clone, Copy, Debug, PartialEq, Eq, Structural)]
pub struct Callbacks {
    pub on_open: bool,
    pub on_close: bool,
    pub on_option_hovered: bool,
}

/// What an event led to. `selected` and `hovered` name options by index; the
/// other flags say whether the open and close messages are to be sent.
#[derive(Clone, Copy, Debug, PartialEq, Eq, Structural)]
pub struct Outcome {
    pub selected: Option<usize>,
    pub hovered: Option<usize>,
    pub opened: bool,
    pub closed: bool,
    pub status: EventStatus,
}

/// Nothing sent, nothing captured.
pub open spec fn ignored() -> Outcome {
    Outcome { selected: None, hovered: None, opened: false, closed: false, status: EventStatus::Ignored }
}

/// An optional index as a machine integer.
pub open spec fn as_usize(o: Option<int>) -> Option<usize> {
    match o {
        Some(i) => Some(i as usize),
        None => None,
    }
}

/// The state a pick list keeps between events.
#[derive(Clone, Copy, Debug)]
pub struct PickListState {
    /// Whether the dropdown list is shown.
    pub is_open: bool,
    /// The option under the pointer in the dropdown list.
    pub hovered_option: Option<usize>,
    /// The modifier keys last reported held.
    pub keyboard_modifiers: Modifiers,
}

/// The step that a scroll of sign `y` asks for: down the list for a negative
/// amount, up for a positive one.
pub open spec fn scroll_direction(y: Sign) -> Option<Direction> {
    match y {
        Sign::Negative => Some(Direction::Forward),
        Sign::Positive => Some(Direction::Backward),
        Sign::Zero => None,
    }
}

/// Whether `event` opens the closed list: a primary press over the field. The
/// hover it starts from is the selection, looked up by value.
pub open spec fn opens_list(s: PickListState, event: Event, cursor: Option<Point>, bounds: Rectangle) -> bool {
    is_primary_press(event) && !s.is_open && is_over(cursor, bounds)
}

/// Whether `event` steps the selection: a scroll in lines over the closed
/// field with the command key held. The step starts from the selection, looked
/// up by value.
pub open spec fn scroll_steps(s: PickListState, event: Event, command_held: bool, cursor: Option<Point>, bounds: Rectangle) -> bool {
    &&& command_held
    &&& event matches Event::WheelScrolled(ScrollDelta::Lines { .. })
    &&& is_over(cursor, bounds)
    &&& !s.is_open
}

/// The field's own handling of `event`, with `command_held` telling whether
/// the command key is held.
pub open spec fn field_step<T: PartialEq>(
    s: PickListState,
    event: Event,
    command_held: bool,
    options: Seq<T>,
    selected: Option<T>,
    mask: Option<Seq<bool>>,
    cursor: Option<Point>,
    bounds: Rectangle,
    cb: Callbacks,
) -> (PickListState, Outcome) {
    if is_primary_press(event) {
        if s.is_open {
            (
                PickListState { is_open: false, hovered_option: None, ..s },
                Outcome { closed: cb.on_close, status: EventStatus::Captured, ..ignored() },
            )
        } else if is_over(cursor, bounds) {
            (
                PickListState {
                    is_open: true,
                    hovered_option: as_usize(anchor_of(options, selected, Direction::Forward)),
                    ..s
                },
                Outcome { opened: cb.on_open, status: EventStatus::Captured, ..ignored() },
            )
        } else {
            (s, ignored())
        }
    } else {
        match event {
            Event::WheelScrolled(ScrollDelta::Lines { y }) => if command_held && is_over(cursor, bounds) && !s.is_open {
                (
                    s,
                    Outcome {
                        selected: match scroll_direction(y) {
                            Some(dir) => as_usize(next_index(options, selected, mask, dir)),
                            None => None,
                        },
                        status: EventStatus::Captured,
                        ..ignored()
                    },
                )
            } else {
                (s, ignored())
            },
            Event::ModifiersChanged(m) => (PickListState { keyboard_modifiers: m, ..s }, ignored()),
            _ => (s, ignored()),
        }
    }
}

/// The dropdown list's handling of `event`: nothing while it is closed;
/// choosing an option closes it.
pub open spec fn overlay_step(
    s: PickListState,
    event: Event,
    cursor: Option<Point>,
    list: ListGeometry,
    count: int,
    mask: Option<Seq<bool>>,
    cb: Callbacks,
) -> (PickListState, Outcome) {
    if !s.is_open {
        (s, ignored())
    } else {
        let lo = list_outcome(s.hovered_option, event, cursor, list, count, mask, cb.on_option_hovered);
        let hovered = list_hover_after(s.hovered_option, event, cursor, list, count, mask);
        if lo.selected is Some {
            (
                PickListState { is_open: false, hovered_option: None, ..s },
                Outcome { selected: lo.selected, closed: cb.on_close, status: EventStatus::Captured, ..ignored() },
            )
        } else {
            (
                PickListState { hovered_option: hovered, ..s },
                Outcome { hovered: lo.hovered, status: lo.status, ..ignored() },
            )
        }
    }
}

/// An event as the pick list sees it: the dropdown list, when open, has it
/// first; what the list does not capture reaches the field.
pub open spec fn pick_list_step<T: PartialEq>(
    s: PickListState,
    event: Event,
    command_held: bool,
    options: Seq<T>,
    selected: Option<T>,
    mask: Option<Seq<bool>>,
    cursor: Option<Point>,
    bounds: Rectangle,
    list: ListGeometry,
    cb: Callbacks,
) -> (PickListState, Outcome) {
    let (s1, r1) = overlay_step(s, event, cursor, list, options.len() as int, mask, cb);
    if r1.status == EventStatus::Captured {
        (s1, r1)
    } else {
        field_step(s1, event, command_held, options, selected, mask, cursor, bounds, cb)
    }
}

impl PickListState {
    /// A hover is kept only while the list is open.
    pub open spec fn wf(self) -> bool {
        !self.is_open ==> self.hovered_option is None
    }

    /// A closed pick list with no modifier key held.
    pub fn new() -> (r: PickListState)
        ensures
            !r.is_open,
            r.hovered_option is None,
            r.wf(),
    {
        PickListState { is_open: false, hovered_option: None, keyboard_modifiers: Modifiers::empty() }
    }

    pub fn is_open(&self) -> (r: bool)
        ensures
            r == self.is_open,
    {
        self.is_open
    }

    pub fn hovered_option(&self) -> (r: Option<usize>)
        ensures
            r == self.hovered_option,
    {
        self.hovered_option
    }

    /// How the field is drawn: open, hovered, or at rest.
    pub fn status(&self, cursor_over: bool) -> (r: Status)
        ensures
            r == (if self.is_open {
                Status::Opened
            } else if cursor_over {
                Status::Hovered
            } else {
                Status::Active
            }),
    {
        if self.is_open {
            Status::Opened
        } else if cursor_over {
            Status::Hovered
        } else {
            Status::Active
        }
    }

    /// The field's own handling of an event, given whether the command key is
    /// held. A press opens the closed list when it lands on the field, hovering
    /// the selected option, and closes the open list wherever it lands. With the
    /// command key held, a scroll over the closed field selects the next or
    /// previous enabled option.
    pub fn update_field<T: PartialEq>(
        &mut self,
        event: Event,
        command_held: bool,
        options: &[T],
        selected: Option<&T>,
        mask: Option<&[bool]>,
        cursor: Option<Point>,
        bounds: Rectangle,
        cb: Callbacks,
    ) -> (r: Outcome)
        ensures
            ({
                let (s, o) = field_step(*old(self), event, command_held, options@, deref_option(selected),
                    mask_view(mask), cursor, bounds, cb);
                &&& T::obeys_eq_spec() ==> *final(self) == s && r == o
                &&& final(self).is_open == s.is_open
                &&& final(self).keyboard_modifiers == s.keyboard_modifiers
                &&& !opens_list(*old(self), event, cursor, bounds) ==> final(self).hovered_option == s.hovered_option
                &&& r.opened == o.opened
                &&& r.closed == o.closed
                &&& r.status == o.status
                &&& r.hovered is None
                &&& !scroll_steps(*old(self), event, command_held, cursor, bounds) ==> r.selected == o.selected
            }),
            r.selected matches Some(i) ==> i < options@.len() && !disabled_at(mask_view(mask), i as int),
            final(self).hovered_option matches Some(i) ==> i < options@.len()
                || final(self).hovered_option == old(self).hovered_option,
            old(self).wf() ==> final(self).wf(),
    {
        let ignored = Outcome { selected: None, hovered: None, opened: false, closed: false, status: EventStatus::Ignored };
        let primary = match event {
            Event::ButtonPressed(b) => b == Button::Left,
            Event::FingerPressed => true,
            _ => false,
        };
        if primary {
            if self.is_open {
                self.is_open = false;
                self.hovered_option = None;
                return Outcome { closed: cb.on_close, status: EventStatus::Captured, ..ignored };
            } else if cursor_is_over(cursor, bounds) {
                self.is_open = true;
                self.hovered_option = match selected {
                    Some(v) => position_of(options, v, Direction::Forward),
                    None => None,
                };
                return Outcome { opened: cb.on_open, status: EventStatus::Captured, ..ignored };
            } else {
                return ignored;
            }
        }
        match event {
            Event::WheelScrolled(ScrollDelta::Lines { y }) => {
                if command_held && cursor_is_over(cursor, bounds) && !self.is_open {
                    let next = match y {
                        Sign::Negative => next_option(options, selected, mask, Direction::Forward),
                        Sign::Positive => next_option(options, selected, mask, Direction::Backward),
                        Sign::Zero => None,
                    };
                    Outcome { selected: next, status: EventStatus::Captured, ..ignored }
                } else {
                    ignored
                }
            },
            Event::ModifiersChanged(m) => {
                self.keyboard_modifiers = m;
                ignored
            },
            _ => ignored,
        }
    }

    /// The field's own handling of an event, reading the command key from the
    /// modifiers last reported.
    pub fn on_field_event<T: PartialEq>(
        &mut self,
        event: Event,
        options: &[T],
        selected: Option<&T>,
        mask: Option<&[bool]>,
        cursor: Option<Point>,
        bounds: Rectangle,
        cb: Callbacks,
    ) -> (r: Outcome)
        ensures
            exists|command_held: bool| {
                let (s, o) = #[trigger] field_step(*old(self), event, command_held, options@,
                    deref_option(selected), mask_view(mask), cursor, bounds, cb);
                &&& T::obeys_eq_spec() ==> *final(self) == s && r == o
                &&& final(self).is_open == s.is_open
                &&& final(self).keyboard_modifiers == s.keyboard_modifiers
                &&& !opens_list(*old(self), event, cursor, bounds) ==> final(self).hovered_option == s.hovered_option
                &&& r.opened == o.opened
                &&& r.closed == o.closed
                &&& r.status == o.status
                &&& r.hovered is None
                &&& !scroll_steps(*old(self), event, command_held, cursor, bounds) ==> r.selected == o.selected
            },
            r.selected matches Some(i) ==> i < options@.len() && !disabled_at(mask_view(mask), i as int),
            old(self).wf() ==> final(self).wf(),
    {
        let command_held = self.keyboard_modifiers.command();
        self.update_field(event, command_held, options, selected, mask, cursor, bounds, cb)
    }

    /// The dropdown list's handling of an event. Nothing happens while the list
    /// is closed. Choosing an enabled option closes the list and reports both
    /// the choice and, when asked for, the close.
    pub fn update_overlay(
        &mut self,
        event: Event,
        cursor: Option<Point>,
        list: ListGeometry,
        count: usize,
        mask: Option<&[bool]>,
        cb: Callbacks,
    ) -> (r: Outcome)
        ensures
            (*final(self), r) == overlay_step(*old(self), event, cursor, list, count as int, mask_view(mask), cb),
            r.selected matches Some(i) ==> i < count && !disabled_at(mask_view(mask), i as int),
            r.hovered matches Some(i) ==> i < count && !disabled_at(mask_view(mask), i as int),
            old(self).wf() ==> final(self).wf(),
            old(self).wf() ==> (final(self).hovered_option matches Some(i) ==> i < count),
    {
        let ignored = Outcome { selected: None, hovered: None, opened: false, closed: false, status: EventStatus::Ignored };
        if !self.is_open {
            return ignored;
        }
        let lo = update_list(&mut self.hovered_option, event, cursor, list, count, mask, cb.on_option_hovered);
        if lo.selected.is_some() {
            self.is_open = false;
            self.hovered_option = None;
            Outcome { selected: lo.selected, closed: cb.on_close, status: EventStatus::Captured, ..ignored }
        } else {
            Outcome { hovered: lo.hovered, status: lo.status, ..ignored }
        }
    }

    /// An event as the pick list sees it, given whether the command key is
    /// held: the open list has it first, and what it does not capture reaches
    /// the field.
    pub fn update<T: PartialEq>(
        &mut self,
        event: Event,
        command_held: bool,
        options: &[T],
        selected: Option<&T>,
        mask: Option<&[bool]>,
        cursor: Option<Point>,
        bounds: Rectangle,
        list: ListGeometry,
        cb: Callbacks,
    ) -> (r: Outcome)
        ensures
            ({
                let (s, o) = pick_list_step(*old(self), event, command_held, options@,
                    deref_option(selected), mask_view(mask), cursor, bounds, list, cb);
                &&& T::obeys_eq_spec() ==> *final(self) == s && r == o
                &&& final(self).is_open == s.is_open
                &&& final(self).keyboard_modifiers == s.keyboard_modifiers
                &&& !opens_list(*old(self), event, cursor, bounds) ==> final(self).hovered_option == s.hovered_option
                &&& r.hovered == o.hovered
                &&& r.opened == o.opened
                &&& r.closed == o.closed
                &&& r.status == o.status
                &&& !scroll_steps(*old(self), event, command_held, cursor, bounds) ==> r.selected == o.selected
            }),
            r.selected matches Some(i) ==> i < options@.len() && !disabled_at(mask_view(mask), i as int),
            r.hovered matches Some(i) ==> i < options@.len() && !disabled_at(mask_view(mask), i as int),
            old(self).wf() ==> final(self).wf(),
            old(self).wf() ==> (final(self).hovered_option matches Some(i) ==> i < options@.len()),
    {
        let r = self.update_overlay(event, cursor, list, options.len(), mask, cb);
        if r.status == EventStatus::Captured {
            return r;
        }
        self.update_field(event, command_held, options, selected, mask, cursor, bounds, cb)
    }

    /// An event as the pick list sees it, reading the command key from the
    /// modifiers last reported.
    pub fn on_event<T: PartialEq>(
        &mut self,
        event: Event,
        options: &[T],
        selected: Option<&T>,
        mask: Option<&[bool]>,
        cursor: Option<Point>,
        bounds: Rectangle,
        list: ListGeometry,
        cb: Callbacks,
    ) -> (r: Outcome)
        ensures
            exists|command_held: bool| {
                let (s, o) = #[trigger] pick_list_step(*old(self), event, command_held, options@,
                    deref_option(selected), mask_view(mask), cursor, bounds, list, cb);
                &&& T::obeys_eq_spec() ==> *final(self) == s && r == o
                &&& final(self).is_open == s.is_open
                &&& final(self).keyboard_modifiers == s.keyboard_modifiers
                &&& !opens_list(*old(self), event, cursor, bounds) ==> final(self).hovered_option == s.hovered_option
                &&& r.hovered == o.hovered
                &&& r.opened == o.opened
                &&& r.closed == o.closed
                &&& r.status == o.status
                &&& !scroll_steps(*old(self), event, command_held, cursor, bounds) ==> r.selected == o.selected
            },
            r.selected matches Some(i) ==> i < options@.len() && !disabled_at(mask_view(mask), i as int),
            r.hovered matches Some(i) ==> i < options@.len() && !disabled_at(mask_view(mask), i as int),
            old(self).wf() ==> final(self).wf(),
            old(self).wf() ==> (final(self).hovered_option matches Some(i) ==> i < options@.len()),
    {
        let command_held = self.keyboard_modifiers.command();
        self.update(event, command_held, options, selected, mask, cursor, bounds, list, cb)
    }
}

/// How the field's label is drawn.
#[derive(Clone, Copy, Debug, PartialEq, Eq, Structural)]
pub enum LabelTone {
    /// The selected option, enabled.
    Normal,
    /// The selected option, disabled.
    Disabled,
    /// No selection: the placeholder.
    Placeholder,
}

/// The tone of the label: the placeholder's without a selection, and the
/// disabled one when the first option equal to the selection is disabled.
pub fn label_tone<T: PartialEq>(options: &[T], selected: Option<&T>, mask: Option<&[bool]>) -> (r: LabelTone)
    ensures
        (r == LabelTone::Placeholder) == (selected is None),
        T::obeys_eq_spec() ==> r == (match selected {
            None => LabelTone::Placeholder,
            Some(v) => match anchor_of(options@, Some(*v), Direction::Forward) {
                Some(i) => if disabled_at(mask_view(mask), i) { LabelTone::Disabled } else { LabelTone::Normal },
                None => LabelTone::Normal,
            },
        }),
{
    match selected {
        None => LabelTone::Placeholder,
        Some(v) => match position_of(options, v, Direction::Forward) {
            Some(i) => if is_disabled(i, mask) { LabelTone::Disabled } else { LabelTone::Normal },
            None => LabelTone::Normal,
        },
    }
}

} // verus!
