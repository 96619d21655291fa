use pick_widgets::geometry::{Point, Rectangle};
use pick_widgets::rows::{index_at, is_disabled, visible_range};
use pick_widgets::selector::{next_option, position_of, step, Direction};

#[test]
fn rectangle_contains_left_top_edges_only() {
    let r = Rectangle::new(10, 20, 30, 40);
    assert!(r.contains(Point::new(10, 20)));
    assert!(r.contains(Point::new(39, 59)));
    assert!(!r.contains(Point::new(40, 30)));
    assert!(!r.contains(Point::new(20, 60)));
    assert!(!r.contains(Point::new(9, 30)));
}

#[test]
fn index_at_floors_offset_by_row_height() {
    assert_eq!(index_at(0, 10, 3), Some(0));
    assert_eq!(index_at(9, 10, 3), Some(0));
    assert_eq!(index_at(10, 10, 3), Some(1));
    assert_eq!(index_at(29, 10, 3), Some(2));
}

#[test]
fn index_at_is_none_below_last_row_or_above_list() {
    assert_eq!(index_at(30, 10, 3), None);
    assert_eq!(index_at(1000, 10, 3), None);
    assert_eq!(index_at(-1, 10, 3), None);
    assert_eq!(index_at(0, 10, 0), None);
}

#[test]
fn index_at_with_zero_row_height_is_none() {
    assert_eq!(index_at(5, 0, 3), None);
}

#[test]
fn is_disabled_reads_mask_and_defaults_to_enabled() {
    let mask = vec![false, true];
    assert!(!is_disabled(0, Some(mask.as_slice())));
    assert!(is_disabled(1, Some(mask.as_slice())));
    assert!(!is_disabled(2, Some(mask.as_slice())));
    assert!(!is_disabled(1, None));
}

#[test]
fn visible_range_covers_partly_shown_rows() {
    assert_eq!(visible_range(0, 25, 10, 10), (0, 3));
    assert_eq!(visible_range(15, 10, 10, 10), (1, 3));
    assert_eq!(visible_range(0, 1000, 10, 10), (0, 10));
    assert_eq!(visible_range(-20, 25, 10, 10), (0, 1));
    assert_eq!(visible_range(200, 50, 10, 10), (10, 10));
    assert_eq!(visible_range(0, 20, 0, 10), (0, 0));
}

#[test]
fn step_forward_skips_disabled_and_stops_at_end() {
    let mask = vec![false, true, false];
    assert_eq!(step(3, Some(0), Some(mask.as_slice()), Direction::Forward), Some(2));
    assert_eq!(step(3, Some(2), Some(mask.as_slice()), Direction::Forward), None);
    assert_eq!(step(3, None, Some(mask.as_slice()), Direction::Forward), Some(0));
}

#[test]
fn step_backward_skips_disabled_and_stops_at_start() {
    let mask = vec![false, true, false];
    assert_eq!(step(3, Some(2), Some(mask.as_slice()), Direction::Backward), Some(0));
    assert_eq!(step(3, Some(0), Some(mask.as_slice()), Direction::Backward), None);
    assert_eq!(step(3, None, Some(mask.as_slice()), Direction::Backward), Some(2));
    let first_disabled = vec![true, false, false];
    assert_eq!(step(3, Some(1), Some(first_disabled.as_slice()), Direction::Backward), None);
}

#[test]
fn next_option_without_selection_takes_first_or_last_enabled() {
    let options = vec!["A", "B", "C"];
    let mask = vec![true, false, true];
    assert_eq!(next_option(&options, None, Some(mask.as_slice()), Direction::Forward), Some(1));
    assert_eq!(next_option(&options, None, Some(mask.as_slice()), Direction::Backward), Some(1));
    assert_eq!(next_option(&options, None, None, Direction::Backward), Some(2));
}

#[test]
fn next_option_with_unknown_selection_acts_as_none() {
    let options = vec!["A", "B", "C"];
    assert_eq!(next_option(&options, Some(&"Z"), None, Direction::Forward), Some(0));
    assert_eq!(next_option(&options, Some(&"Z"), None, Direction::Backward), Some(2));
}

#[test]
fn next_option_never_returns_disabled_or_anchor() {
    let options = vec!["A", "B", "C", "D"];
    let masks = [
        vec![false, false, false, false],
        vec![true, false, true, false],
        vec![false, true, true, true],
        vec![true, true, true, true],
        vec![false],
    ];
    for mask in masks.iter() {
        for sel in [None, Some(0usize), Some(1), Some(2), Some(3)] {
            for dir in [Direction::Forward, Direction::Backward] {
                let selected = sel.map(|i| &options[i]);
                if let Some(i) = next_option(&options, selected, Some(mask.as_slice()), dir) {
                    assert!(!is_disabled(i, Some(mask.as_slice())));
                    assert_ne!(Some(i), sel);
                }
            }
        }
    }
}

#[test]
fn next_option_anchors_on_first_match_in_scan_order() {
    let options = vec!["A", "B", "A", "C"];
    assert_eq!(position_of(&options, &"A", Direction::Forward), Some(0));
    assert_eq!(position_of(&options, &"A", Direction::Backward), Some(2));
    assert_eq!(next_option(&options, Some(&"A"), None, Direction::Forward), Some(1));
    assert_eq!(next_option(&options, Some(&"A"), None, Direction::Backward), Some(1));
}

#[test]
fn next_option_with_repeated_disabled_value_ends() {
    let options = vec!["A", "A"];
    let mask = vec![true, false];
    assert_eq!(next_option(&options, Some(&"A"), Some(mask.as_slice()), Direction::Forward), Some(1));
    let all = vec![true, true];
    assert_eq!(next_option(&options, Some(&"A"), Some(all.as_slice()), Direction::Forward), None);
}

#[test]
fn scroll_selection_skips_disabled_option() {
    let options = vec!["A", "B", "C"];
    let mask = vec![false, true, false];
    assert_eq!(next_option(&options, Some(&"A"), Some(mask.as_slice()), Direction::Forward), Some(2));
    assert_eq!(next_option(&options, Some(&"C"), Some(mask.as_slice()), Direction::Backward), Some(0));
}

#[test]
fn extreme_offsets_do_not_overflow() {
    assert_eq!(index_at(i32::MAX, 1, usize::MAX), Some(i32::MAX as usize));
    assert_eq!(index_at(i32::MIN, 1, usize::MAX), None);
    assert_eq!(visible_range(i32::MAX, i32::MAX, 1, usize::MAX), (i32::MAX as usize, 2 * (i32::MAX as usize)));
    assert_eq!(visible_range(i32::MIN, i32::MIN, u32::MAX, 5), (0, 0));
    let r = Rectangle::new(i32::MAX, i32::MAX, i32::MAX, i32::MAX);
    assert!(r.contains(Point::new(i32::MAX, i32::MAX)));
}
