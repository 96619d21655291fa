//! Classifying presses as single or double clicks.
use vstd::prelude::*;
use crate::event::Button;
use crate::geometry::Point;

verus! {

/// Longest time, in milliseconds, between two presses that form a double click.
pub const DOUBLE_CLICK_WINDOW_MS: u64 = 300;

/// Whether a press is the first of a pair or completes one.
#[derive(Clone, Copy, Debug, PartialEq, Eq, Structural)]
pub enum ClickKind {
    Single,
    Double,
}

/// A classified press: where, with which button, when (in milliseconds on a
/// monotonic clock of the caller's choosing) and of which kind.
#[derive(Clone, Copy, Debug, PartialEq, Eq, Structural)]
pub struct Click {
    pub position: Point,
    pub button: Button,
    pub time_ms: u64,
    pub kind: ClickKind,
}

/// Whether a press at `position` with `button` at `time_ms` follows `previous`
/// closely enough to pair with it: same spot, same button, strictly later and
/// at most the window later.
pub open spec fn is_consecutive(previous: Click, position: Point, button: Button, time_ms: u64) -> bool {
    &&& previous.position == position
    &&& previous.button == button
    &&& previous.time_ms < time_ms
    &&& time_ms - previous.time_ms <= DOUBLE_CLICK_WINDOW_MS
}

/// The kind of a new press: it completes a pair when it follows a single click
/// closely; a press that follows a double click starts a new pair.
pub open spec fn kind_of(position: Point, button: Button, time_ms: u64, previous: Option<Click>) -> ClickKind {
    match previous {
        Some(p) => if is_consecutive(p, position, button, time_ms) && p.kind == ClickKind::Single {
            ClickKind::Double
        } else {
            ClickKind::Single
        },
        None => ClickKind::Single,
    }
}

impl Click {
    /// Classifies a press against the previous one. The result is always the
    /// record the next press should be compared with.
    pub fn new(position: Point, button: Button, time_ms: u64, previous: Option<Click>) -> (r: Click)
        ensures
            r.position == position,
            r.button == button,
            r.time_ms == time_ms,
            r.kind == kind_of(position, button, time_ms, previous),
    {
        let kind = match previous {
            Some(p) => {
                if p.position == position && p.button == button && p.time_ms < time_ms
                    && time_ms - p.time_ms <= DOUBLE_CLICK_WINDOW_MS && p.kind == ClickKind::Single
                {
                    ClickKind::Double
                } else {
                    ClickKind::Single
                }
            },
            None => ClickKind::Single,
        };
        Click { position, button, time_ms, kind }
    }

    pub fn kind(&self) -> (r: ClickKind)
        ensures
            r == self.kind,
    {
        self.kind
    }
}

/// A double click takes two presses at one spot with one button, the second
/// within the window after the first; a third press that comes too late, or
/// anywhere else, starts over as a single click.
pub proof fn lemma_double_click_round_trip(position: Point, button: Button, t1: u64, t2: u64, t3: u64, p3: Point)
    requires
        t1 < t2,
        t2 - t1 <= DOUBLE_CLICK_WINDOW_MS,
        t3 <= t2 || t3 - t2 > DOUBLE_CLICK_WINDOW_MS || p3 != position,
    ensures
        ({
            let c1 = Click { position, button, time_ms: t1, kind: kind_of(position, button, t1, None) };
            let c2 = Click { position, button, time_ms: t2, kind: kind_of(position, button, t2, Some(c1)) };
            let k3 = kind_of(p3, button, t3, Some(c2));
            &&& c1.kind == ClickKind::Single
            &&& c2.kind == ClickKind::Double
            &&& k3 == ClickKind::Single
        }),
{
}

} // verus!
