//! The dropdown list of a pick list: hit testing of its rows, hover and
//! selection, how its rows look, and where it opens.
use vstd::prelude::*;
use crate::event::{Button, Event, EventStatus};
use crate::geometry::{Point, Rectangle, position_in, cursor_position_in};
use crate::rows::{as_int, disabled_at, index_at, is_disabled, mask_view, row_at};

verus! {

/// The geometry of the list's rows: where the list is and how tall each row is.
#[derive(Clone, Copy, Debug, PartialEq, Eq, Structural)]
pub struct ListGeometry {
    pub bounds: Rectangle,
    pub row_height: u32,
}

/// What the list did with an event.
#[derive(Clone, Copy, Debug, PartialEq, Eq, Structural)]
pub struct ListOutcome {
    /// The row chosen by this event.
    pub selected: Option<usize>,
    /// The row newly hovered, to report to the application.
    pub hovered: Option<usize>,
    pub status: EventStatus,
}

/// The row under the cursor, if the cursor is over the list and on one of its rows.
pub open spec fn row_under(cursor: Option<Point>, list: ListGeometry, count: int) -> Option<int> {
    match position_in(cursor, list.bounds) {
        Some(p) => row_at(p.y as int, list.row_height as int, count),
        None => None,
    }
}

/// A hover that still names a row of the list, or none.
pub open spec fn valid_hover(hovered: Option<usize>, count: int) -> Option<usize> {
    match hovered {
        Some(h) => if (h as int) < count { Some(h) } else { None },
        None => None,
    }
}

/// The hovered row after `event`.
pub open spec fn list_hover_after(
    hovered: Option<usize>,
    event: Event,
    cursor: Option<Point>,
    list: ListGeometry,
    count: int,
    mask: Option<Seq<bool>>,
) -> Option<usize> {
    let h = valid_hover(hovered, count);
    match row_under(cursor, list, count) {
        Some(i) => if !disabled_at(mask, i) && (event is CursorMoved || event is FingerPressed) {
            Some(i as usize)
        } else {
            h
        },
        None => h,
    }
}

/// What the list reports for `event`.
pub open spec fn list_outcome(
    hovered: Option<usize>,
    event: Event,
    cursor: Option<Point>,
    list: ListGeometry,
    count: int,
    mask: Option<Seq<bool>>,
    notify_hover: bool,
) -> ListOutcome {
    let h = valid_hover(hovered, count);
    let handled = event == Event::ButtonPressed(Button::Left) || event is CursorMoved || event is FingerPressed;
    match row_under(cursor, list, count) {
        Some(i) => if !handled {
            ListOutcome { selected: None, hovered: None, status: EventStatus::Ignored }
        } else if disabled_at(mask, i) {
            ListOutcome { selected: None, hovered: None, status: EventStatus::Captured }
        } else if event is CursorMoved {
            ListOutcome {
                selected: None,
                hovered: if notify_hover && h != Some(i as usize) { Some(i as usize) } else { None },
                status: EventStatus::Captured,
            }
        } else {
            ListOutcome { selected: Some(i as usize), hovered: None, status: EventStatus::Captured }
        },
        None => ListOutcome { selected: None, hovered: None, status: EventStatus::Ignored },
    }
}

/// The row under the cursor, if any.
pub fn option_index_at(cursor: Option<Point>, list: ListGeometry, count: usize) -> (r: Option<usize>)
    ensures
        as_int(r) == row_under(cursor, list, count as int),
        r matches Some(i) ==> i < count,
{
    match cursor_position_in(cursor, list.bounds) {
        Some(p) => index_at(p.y, list.row_height, count),
        None => None,
    }
}

/// Handles an event over the list of `count` rows. A press or a touch on an
/// enabled row chooses it, one on a disabled row is absorbed; moving onto an
/// enabled row hovers it, and reports it when `notify_hover` is set and it was
/// not hovered already. A stale hover beyond the list is dropped first.
pub fn update_list(
    hovered: &mut Option<usize>,
    event: Event,
    cursor: Option<Point>,
    list: ListGeometry,
    count: usize,
    mask: Option<&[bool]>,
    notify_hover: bool,
) -> (r: ListOutcome)
    ensures
        *final(hovered) == list_hover_after(*old(hovered), event, cursor, list, count as int, mask_view(mask)),
        r == list_outcome(*old(hovered), event, cursor, list, count as int, mask_view(mask), notify_hover),
        r.selected matches Some(i) ==> i < count && !disabled_at(mask_view(mask), i as int),
        r.hovered matches Some(i) ==> i < count && !disabled_at(mask_view(mask), i as int),
        *final(hovered) matches Some(i) ==> i < count,
{
    if let Some(h) = *hovered {
        if h >= count {
            *hovered = None;
        }
    }
    let handled = match event {
        Event::ButtonPressed(Button::Left) => true,
        Event::CursorMoved => true,
        Event::FingerPressed => true,
        _ => false,
    };
    let ignored = ListOutcome { selected: None, hovered: None, status: EventStatus::Ignored };
    if !handled {
        return ignored;
    }
    let i = match option_index_at(cursor, list, count) {
        Some(i) => i,
        None => return ignored,
    };
    if is_disabled(i, mask) {
        return ListOutcome { selected: None, hovered: None, status: EventStatus::Captured };
    }
    match event {
        Event::CursorMoved => {
            let report = notify_hover && *hovered != Some(i);
            *hovered = Some(i);
            ListOutcome {
                selected: None,
                hovered: if report { Some(i) } else { None },
                status: EventStatus::Captured,
            }
        },
        Event::FingerPressed => {
            *hovered = Some(i);
            ListOutcome { selected: Some(i), hovered: None, status: EventStatus::Captured }
        },
        _ => ListOutcome { selected: Some(i), hovered: None, status: EventStatus::Captured },
    }
}

/// Whether the cursor is on an enabled row, where it shows as a pointer.
pub fn points_at_option(cursor: Option<Point>, list: ListGeometry, count: usize, mask: Option<&[bool]>) -> (r: bool)
    ensures
        r == (row_under(cursor, list, count as int) matches Some(i) && !disabled_at(mask_view(mask), i)),
{
    match option_index_at(cursor, list, count) {
        Some(i) => !is_disabled(i, mask),
        None => false,
    }
}

/// How a row is painted.
#[derive(Clone, Copy, Debug, PartialEq, Eq, Structural)]
pub enum RowLook {
    /// The hovered row, when enabled.
    Highlighted,
    Disabled,
    Plain,
}

/// How row `index` looks: disabled rows never look hovered.
pub fn row_look(index: usize, hovered: Option<usize>, mask: Option<&[bool]>) -> (r: RowLook)
    ensures
        r == (if disabled_at(mask_view(mask), index as int) {
            RowLook::Disabled
        } else if hovered == Some(index) {
            RowLook::Highlighted
        } else {
            RowLook::Plain
        }),
{
    if is_disabled(index, mask) {
        RowLook::Disabled
    } else if hovered == Some(index) {
        RowLook::Highlighted
    } else {
        RowLook::Plain
    }
}

/// Where the list opens relative to the field it belongs to, and how tall it may grow.
#[derive(Clone, Copy, Debug, PartialEq, Eq, Structural)]
pub struct Placement {
    /// The list opens below the field; otherwise above it.
    pub below: bool,
    /// The room on the chosen side.
    pub max_height: i64,
}

/// Opens the list on the side of the field with more room, above when the
/// room is equal. `field_y` is the field's top edge, `field_height` its height
/// and `viewport_height` the height of the whole surface.
pub fn placement(field_y: i32, field_height: i32, viewport_height: i32) -> (r: Placement)
    ensures
        ({
            let below = viewport_height - (field_y + field_height);
            let above = field_y as int;
            r == (if below > above {
                Placement { below: true, max_height: below as i64 }
            } else {
                Placement { below: false, max_height: above as i64 }
            })
        }),
{
    let below: i64 = viewport_height as i64 - (field_y as i64 + field_height as i64);
    let above: i64 = field_y as i64;
    if below > above {
        Placement { below: true, max_height: below }
    } else {
        Placement { below: false, max_height: above }
    }
}

} // verus!
