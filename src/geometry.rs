//! Integer geometry: points and rectangles in logical units.
use vstd::prelude::*;

verus! {

/// A position in logical units.
#[derive(Clone, Copy, Debug, PartialEq, Eq, Structural)]
pub struct Point {
    pub x: i32,
    pub y: i32,
}

/// An axis-aligned rectangle given by its top-left corner and its size.
#[derive(Clone, Copy, Debug, PartialEq, Eq, Structural)]
pub struct Rectangle {
    pub x: i32,
    pub y: i32,
    pub width: i32,
    pub height: i32,
}

impl Point {
    pub fn new(x: i32, y: i32) -> (r: Point)
        ensures
            r.x == x,
            r.y == y,
    {
        Point { x, y }
    }
}

impl Rectangle {
    /// Whether `p` lies in the rectangle: the left and top edges are inside,
    /// the right and bottom edges are not.
    pub open spec fn contains_spec(self, p: Point) -> bool {
        &&& self.x <= p.x
        &&& p.x < self.x + self.width
        &&& self.y <= p.y
        &&& p.y < self.y + self.height
    }

    pub fn new(x: i32, y: i32, width: i32, height: i32) -> (r: Rectangle)
        ensures
            r == (Rectangle { x, y, width, height }),
    {
        Rectangle { x, y, width, height }
    }

    /// Whether `p` lies in the rectangle.
    pub fn contains(&self, p: Point) -> (r: bool)
        ensures
            r == self.contains_spec(p),
    {
        let right: i64 = self.x as i64 + self.width as i64;
        let bottom: i64 = self.y as i64 + self.height as i64;
        self.x <= p.x && (p.x as i64) < right && self.y <= p.y && (p.y as i64) < bottom
    }
}

/// Whether a cursor, if there is one, lies over `bounds`.
pub open spec fn is_over(cursor: Option<Point>, bounds: Rectangle) -> bool {
    match cursor {
        Some(p) => bounds.contains_spec(p),
        None => false,
    }
}

/// The cursor relative to the top-left corner of `bounds`, when it lies over them.
pub open spec fn position_in(cursor: Option<Point>, bounds: Rectangle) -> Option<Point> {
    match cursor {
        Some(p) => if bounds.contains_spec(p) {
            Some(Point { x: (p.x - bounds.x) as i32, y: (p.y - bounds.y) as i32 })
        } else {
            None
        },
        None => None,
    }
}

/// Whether a cursor, if there is one, lies over `bounds`.
pub fn cursor_is_over(cursor: Option<Point>, bounds: Rectangle) -> (r: bool)
    ensures
        r == is_over(cursor, bounds),
{
    match cursor {
        Some(p) => bounds.contains(p),
        None => false,
    }
}

/// The cursor relative to the corner of `bounds`, when it lies over them.
pub fn cursor_position_in(cursor: Option<Point>, bounds: Rectangle) -> (r: Option<Point>)
    ensures
        r == position_in(cursor, bounds),
        r.is_some() ==> r.unwrap().x >= 0 && r.unwrap().y >= 0,
{
    match cursor {
        Some(p) => if bounds.contains(p) {
            Some(Point { x: p.x - bounds.x, y: p.y - bounds.y })
        } else {
            None
        },
        None => None,
    }
}

} // verus!
