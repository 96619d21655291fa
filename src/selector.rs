//! Finding the next or previous enabled option from the current selection.
use vstd::prelude::*;
use vstd::std_specs::cmp::PartialEqSpec;
use crate::rows::{as_int, disabled_at, is_disabled, mask_view};

verus! {

/// Which way to step through the options.
#[derive(Clone, Copy, Debug, PartialEq, Eq, Structural)]
pub enum Direction {
    Forward,
    Backward,
}

/// The first enabled row in `[from, len)`.
pub open spec fn scan_forward(mask: Option<Seq<bool>>, from: int, len: int) -> Option<int>
    decreases len - from,
{
    if from >= len {
        None
    } else if !disabled_at(mask, from) {
        Some(from)
    } else {
        scan_forward(mask, from + 1, len)
    }
}

/// The last enabled row in `[0, to)`.
pub open spec fn scan_backward(mask: Option<Seq<bool>>, to: int) -> Option<int>
    decreases to,
{
    if to <= 0 {
        None
    } else if !disabled_at(mask, to - 1) {
        Some(to - 1)
    } else {
        scan_backward(mask, to - 1)
    }
}

/// The row a step from `anchor` lands on: the nearest enabled row after it
/// (forward) or before it (backward); from no anchor, the first or the last
/// enabled row. There is no wrapping around the ends.
pub open spec fn step_from(len: int, anchor: Option<int>, mask: Option<Seq<bool>>, dir: Direction) -> Option<int> {
    match dir {
        Direction::Forward => scan_forward(mask, match anchor { Some(a) => a + 1, None => 0 }, len),
        Direction::Backward => scan_backward(mask, match anchor { Some(a) => a, None => len }),
    }
}

/// The first option in `[from, len)` equal to `v`.
pub open spec fn first_match<T: PartialEq>(options: Seq<T>, v: T, from: int) -> Option<int>
    decreases options.len() - from,
{
    if from >= options.len() {
        None
    } else if options[from].eq_spec(&v) {
        Some(from)
    } else {
        first_match(options, v, from + 1)
    }
}

/// The last option in `[0, to)` equal to `v`.
pub open spec fn last_match<T: PartialEq>(options: Seq<T>, v: T, to: int) -> Option<int>
    decreases to,
{
    if to <= 0 {
        None
    } else if options[to - 1].eq_spec(&v) {
        Some(to - 1)
    } else {
        last_match(options, v, to - 1)
    }
}

/// The row a step starts from: the first option equal to the selection in the
/// order of the step, none when nothing is selected or nothing matches.
pub open spec fn anchor_of<T: PartialEq>(options: Seq<T>, selected: Option<T>, dir: Direction) -> Option<int> {
    match selected {
        Some(v) => match dir {
            Direction::Forward => first_match(options, v, 0),
            Direction::Backward => last_match(options, v, options.len() as int),
        },
        None => None,
    }
}

/// The value an optional reference points to.
pub open spec fn deref_option<T>(o: Option<&T>) -> Option<T> {
    match o {
        Some(v) => Some(*v),
        None => None,
    }
}

/// The option a step from the selection lands on.
pub open spec fn next_index<T: PartialEq>(options: Seq<T>, selected: Option<T>, mask: Option<Seq<bool>>, dir: Direction) -> Option<int> {
    step_from(options.len() as int, anchor_of(options, selected, dir), mask, dir)
}

/// What a forward scan finds is enabled and in `[from, len)`.
pub proof fn lemma_scan_forward(mask: Option<Seq<bool>>, from: int, len: int)
    ensures
        scan_forward(mask, from, len) matches Some(i) ==> from <= i < len && !disabled_at(mask, i),
    decreases len - from,
{
    if from < len && disabled_at(mask, from) {
        lemma_scan_forward(mask, from + 1, len);
    }
}

/// What a backward scan finds is enabled and in `[0, to)`.
pub proof fn lemma_scan_backward(mask: Option<Seq<bool>>, to: int)
    ensures
        scan_backward(mask, to) matches Some(i) ==> 0 <= i < to && !disabled_at(mask, i),
    decreases to,
{
    if to > 0 && disabled_at(mask, to - 1) {
        lemma_scan_backward(mask, to - 1);
    }
}

/// A step never lands on a disabled row, never on its anchor, and stays
/// within the list.
pub proof fn lemma_step_skips_disabled_and_anchor(len: int, anchor: Option<int>, mask: Option<Seq<bool>>, dir: Direction)
    requires
        anchor matches Some(a) ==> 0 <= a < len,
    ensures
        step_from(len, anchor, mask, dir) matches Some(i) ==> {
            &&& 0 <= i < len
            &&& !disabled_at(mask, i)
            &&& anchor != Some(i)
        },
{
    match dir {
        Direction::Forward => lemma_scan_forward(mask, match anchor { Some(a) => a + 1, None => 0 }, len),
        Direction::Backward => lemma_scan_backward(mask, match anchor { Some(a) => a, None => len }),
    }
}

proof fn lemma_first_match_range<T: PartialEq>(options: Seq<T>, v: T, from: int)
    requires
        0 <= from,
    ensures
        first_match(options, v, from) matches Some(i) ==> from <= i < options.len(),
    decreases options.len() - from,
{
    if from < options.len() && !options[from].eq_spec(&v) {
        lemma_first_match_range(options, v, from + 1);
    }
}

proof fn lemma_last_match_range<T: PartialEq>(options: Seq<T>, v: T, to: int)
    requires
        to <= options.len(),
    ensures
        last_match(options, v, to) matches Some(i) ==> 0 <= i < to,
    decreases to,
{
    if to > 0 && !options[to - 1].eq_spec(&v) {
        lemma_last_match_range(options, v, to - 1);
    }
}

/// For every list of options, selection and mask, a step never lands on a
/// disabled option nor on the option it started from, and what it lands on is
/// an option of the list.
pub proof fn lemma_next_skips_disabled_and_anchor<T: PartialEq>(options: Seq<T>, selected: Option<T>, mask: Option<Seq<bool>>, dir: Direction)
    ensures
        next_index(options, selected, mask, dir) matches Some(i) ==> {
            &&& 0 <= i < options.len()
            &&& !disabled_at(mask, i)
            &&& anchor_of(options, selected, dir) != Some(i)
        },
{
    if let Some(v) = selected {
        lemma_first_match_range(options, v, 0);
        lemma_last_match_range(options, v, options.len() as int);
    }
    lemma_step_skips_disabled_and_anchor(options.len() as int, anchor_of(options, selected, dir), mask, dir);
}

/// The row a step from `anchor` lands on, among `len` rows.
pub fn step(len: usize, anchor: Option<usize>, mask: Option<&[bool]>, dir: Direction) -> (r: Option<usize>)
    requires
        anchor matches Some(a) ==> a < len,
    ensures
        as_int(r) == step_from(len as int, as_int(anchor), mask_view(mask), dir),
        r matches Some(i) ==> i < len,
{
    proof { lemma_step_skips_disabled_and_anchor(len as int, as_int(anchor), mask_view(mask), dir); }
    match dir {
        Direction::Forward => {
            let mut i: usize = match anchor { Some(a) => a + 1, None => 0 };
            while i < len
                invariant
                    i <= len,
                    scan_forward(mask_view(mask), i as int, len as int)
                        == step_from(len as int, as_int(anchor), mask_view(mask), dir),
                decreases len - i,
            {
                if !is_disabled(i, mask) {
                    return Some(i);
                }
                i = i + 1;
            }
            None
        },
        Direction::Backward => {
            let mut i: usize = match anchor { Some(a) => a, None => len };
            while i > 0
                invariant
                    i <= len,
                    scan_backward(mask_view(mask), i as int)
                        == step_from(len as int, as_int(anchor), mask_view(mask), dir),
                decreases i,
            {
                if !is_disabled(i - 1, mask) {
                    return Some(i - 1);
                }
                i = i - 1;
            }
            None
        },
    }
}

/// The first index of an option equal to `selected` in the order of `dir`.
pub fn position_of<T: PartialEq>(options: &[T], selected: &T, dir: Direction) -> (r: Option<usize>)
    ensures
        r matches Some(i) ==> i < options@.len(),
        T::obeys_eq_spec() ==> as_int(r) == anchor_of(options@, Some(*selected), dir),
{
    match dir {
        Direction::Forward => {
            let mut i: usize = 0;
            while i < options.len()
                invariant
                    i <= options@.len(),
                    dir == Direction::Forward,
                    T::obeys_eq_spec() ==> first_match(options@, *selected, i as int)
                        == first_match(options@, *selected, 0),
                decreases options@.len() - i,
            {
                if options[i] == *selected {
                    return Some(i);
                }
                i = i + 1;
            }
            None
        },
        Direction::Backward => {
            let mut i: usize = options.len();
            while i > 0
                invariant
                    i <= options@.len(),
                    dir == Direction::Backward,
                    T::obeys_eq_spec() ==> last_match(options@, *selected, i as int)
                        == last_match(options@, *selected, options@.len() as int),
                decreases i,
            {
                if options[i - 1] == *selected {
                    return Some(i - 1);
                }
                i = i - 1;
            }
            None
        },
    }
}

/// The option a step from the selection lands on: the selection is looked up
/// by value, and a selection that no option equals counts as none.
pub fn next_option<T: PartialEq>(options: &[T], selected: Option<&T>, mask: Option<&[bool]>, dir: Direction) -> (r: Option<usize>)
    ensures
        T::obeys_eq_spec() ==> as_int(r) == next_index(options@, deref_option(selected), mask_view(mask), dir),
        r matches Some(i) ==> i < options@.len() && !disabled_at(mask_view(mask), i as int),
{
    let anchor = match selected {
        Some(v) => position_of(options, v, dir),
        None => None,
    };
    let r = step(options.len(), anchor, mask, dir);
    proof {
        lemma_step_skips_disabled_and_anchor(options@.len() as int, as_int(anchor), mask_view(mask), dir);
    }
    r
}

} // verus!
