//! Tracking whether a pointer is over a region from one frame to the next.
use vstd::prelude::*;
use crate::geometry::{Point, Rectangle, is_over, position_in, cursor_is_over, cursor_position_in};

verus! {

/// What changed when the tracker was brought up to date.
#[derive(Clone, Copy, Debug, PartialEq, Eq, Structural)]
pub struct Transition {
    /// The pointer came over the region.
    pub entered: bool,
    /// The pointer left the region.
    pub exited: bool,
    /// The pointer is over the region, at this position relative to its corner.
    pub moved: Option<Point>,
}

impl Transition {
    /// Nothing changed.
    pub open spec fn is_none(self) -> bool {
        !self.entered && !self.exited && self.moved is None
    }

    /// The transition that reports nothing.
    pub fn none() -> (r: Transition)
        ensures
            r.is_none(),
    {
        Transition { entered: false, exited: false, moved: None }
    }
}

/// The last pointer position and region seen, and whether the one was over the other.
#[derive(Clone, Copy, Debug, PartialEq, Eq, Structural)]
pub struct HoverTracker {
    pub is_hovered: bool,
    pub bounds: Rectangle,
    pub cursor_position: Option<Point>,
}

impl HoverTracker {
    /// The tracker is consistent: the hover flag is what its position and region give.
    pub open spec fn wf(self) -> bool {
        self.is_hovered == is_over(self.cursor_position, self.bounds)
    }

    /// The tracker after seeing `cursor` and `bounds`.
    pub open spec fn next(self, cursor: Option<Point>, bounds: Rectangle) -> HoverTracker {
        if self.cursor_position == cursor && self.bounds == bounds {
            self
        } else {
            HoverTracker { is_hovered: is_over(cursor, bounds), bounds, cursor_position: cursor }
        }
    }

    /// The transition reported on seeing `cursor` and `bounds`.
    pub open spec fn transition(self, cursor: Option<Point>, bounds: Rectangle) -> Transition {
        if self.cursor_position == cursor && self.bounds == bounds {
            Transition { entered: false, exited: false, moved: None }
        } else {
            let now = is_over(cursor, bounds);
            Transition {
                entered: now && !self.is_hovered,
                exited: !now && self.is_hovered,
                moved: position_in(cursor, bounds),
            }
        }
    }

    /// A tracker that has seen no pointer over an empty region.
    pub open spec fn new_spec() -> HoverTracker {
        HoverTracker {
            is_hovered: false,
            bounds: Rectangle { x: 0, y: 0, width: 0, height: 0 },
            cursor_position: None,
        }
    }

    pub fn new() -> (r: HoverTracker)
        ensures
            r == HoverTracker::new_spec(),
            r.wf(),
    {
        HoverTracker {
            is_hovered: false,
            bounds: Rectangle { x: 0, y: 0, width: 0, height: 0 },
            cursor_position: None,
        }
    }

    pub fn is_hovered(&self) -> (r: bool)
        ensures
            r == self.is_hovered,
    {
        self.is_hovered
    }

    /// Brings the tracker up to date. Nothing is re-evaluated, and nothing is
    /// reported, when neither the pointer nor the region has changed.
    pub fn update(&mut self, cursor: Option<Point>, bounds: Rectangle) -> (t: Transition)
        ensures
            *final(self) == old(self).next(cursor, bounds),
            t == old(self).transition(cursor, bounds),
            old(self).wf() ==> final(self).wf(),
    {
        if self.cursor_position == cursor && self.bounds == bounds {
            return Transition::none();
        }
        let was_hovered = self.is_hovered;
        let now = cursor_is_over(cursor, bounds);
        self.is_hovered = now;
        self.cursor_position = cursor;
        self.bounds = bounds;
        Transition {
            entered: now && !was_hovered,
            exited: !now && was_hovered,
            moved: cursor_position_in(cursor, bounds),
        }
    }
}

/// Once the tracker has seen a pointer and a region, seeing them again changes
/// nothing and reports no transition.
pub proof fn lemma_update_idempotent(h: HoverTracker, cursor: Option<Point>, bounds: Rectangle)
    ensures
        h.next(cursor, bounds).next(cursor, bounds) == h.next(cursor, bounds),
        h.next(cursor, bounds).transition(cursor, bounds).is_none(),
{
}

} // verus!
