//! Rows of a vertically stacked list: which row a pointer is on, which rows are
//! disabled and which rows a viewport shows.
use vstd::prelude::*;
use vstd::arithmetic::div_mod::{lemma_fundamental_div_mod, lemma_mod_bound, lemma_fundamental_div_mod_converse};

verus! {

/// The row under a vertical offset from the top of a list of `count` rows of
/// `row_height` each: none above the list, below its last row, or when rows
/// have no height.
pub open spec fn row_at(offset_y: int, row_height: int, count: int) -> Option<int> {
    if offset_y < 0 || row_height <= 0 || offset_y / row_height >= count {
        None
    } else {
        Some(offset_y / row_height)
    }
}

/// An optional machine index as a mathematical integer.
pub open spec fn as_int(o: Option<usize>) -> Option<int> {
    match o {
        Some(i) => Some(i as int),
        None => None,
    }
}

/// Whether row `i` is disabled: only when the mask is present, reaches that
/// far and says so.
pub open spec fn disabled_at(mask: Option<Seq<bool>>, i: int) -> bool {
    match mask {
        Some(m) => 0 <= i < m.len() && m[i],
        None => false,
    }
}

/// The contents of an optional mask.
pub open spec fn mask_view(mask: Option<&[bool]>) -> Option<Seq<bool>> {
    match mask {
        Some(m) => Some(m@),
        None => None,
    }
}

/// `v` brought within `[0, hi]`.
pub open spec fn clamp(v: int, hi: int) -> int {
    if v < 0 {
        0
    } else if v > hi {
        hi
    } else {
        v
    }
}

/// The smallest integer not below `v / d`, for `d > 0`.
pub open spec fn ceil_div(v: int, d: int) -> int {
    (v + d - 1) / d
}

/// The rows that a viewport from `top` down `height` shows: from the row under
/// its top edge up to, not including, the first row wholly below its bottom
/// edge, within the list. The range is empty when the viewport shows no row.
pub open spec fn visible_rows(top: int, height: int, row_height: int, count: int) -> (int, int) {
    if row_height <= 0 {
        (0, 0)
    } else {
        let lo = clamp(top / row_height, count);
        let hi = clamp(ceil_div(top + height, row_height), count);
        (if lo <= hi { lo } else { hi }, hi)
    }
}

/// The index of the row under `offset_y`.
pub fn index_at(offset_y: i32, row_height: u32, count: usize) -> (r: Option<usize>)
    ensures
        as_int(r) == row_at(offset_y as int, row_height as int, count as int),
{
    if offset_y < 0 || row_height == 0 {
        return None;
    }
    let i: u32 = (offset_y as u32) / row_height;
    if (i as usize) < count {
        Some(i as usize)
    } else {
        None
    }
}

/// Whether row `index` is disabled under `mask`.
pub fn is_disabled(index: usize, mask: Option<&[bool]>) -> (r: bool)
    ensures
        r == disabled_at(mask_view(mask), index as int),
{
    match mask {
        Some(m) => index < m.len() && m[index],
        None => false,
    }
}

/// The half-open range of rows a viewport shows.
pub fn visible_range(top: i32, height: i32, row_height: u32, count: usize) -> (r: (usize, usize))
    ensures
        (r.0 as int, r.1 as int) == visible_rows(top as int, height as int, row_height as int, count as int),
        r.0 <= r.1 <= count,
{
    if row_height == 0 {
        return (0, 0);
    }
    let h = row_height as i64;
    let lo: usize = if top < 0 {
        proof { lemma_div_negative(top as int, h as int); }
        0
    } else {
        let q: u32 = (top as u32) / row_height;
        if (q as usize) > count { count } else { q as usize }
    };
    let bottom: i64 = top as i64 + height as i64;
    let hi: usize = if bottom <= 0 {
        proof { lemma_div_negative(bottom + h - 1, h as int); }
        0
    } else {
        let c: i64 = (bottom + h - 1) / h;
        if (c as u64) > (count as u64) { count } else { c as usize }
    };
    if lo <= hi { (lo, hi) } else { (hi, hi) }
}

proof fn lemma_div_negative(v: int, d: int)
    requires
        d > 0,
        v < d,
    ensures
        v / d <= 0,
        v < 0 ==> v / d < 0,
{
    lemma_fundamental_div_mod(v, d);
    lemma_mod_bound(v, d);
    assert(d * (v / d) <= v);
    if v / d > 0 {
        assert(d * (v / d) >= d) by (nonlinear_arith)
            requires v / d > 0, d > 0;
    }
    if v < 0 && v / d >= 0 {
        assert(d * (v / d) >= 0) by (nonlinear_arith)
            requires v / d >= 0, d > 0;
    }
}

/// For rows of positive height, the row under an offset is none exactly when
/// the offset lies above the list or at or below the end of its last row, and
/// otherwise the row whose span holds the offset.
pub proof fn lemma_row_at(offset_y: int, row_height: int, count: int)
    requires
        row_height > 0,
    ensures
        row_at(offset_y, row_height, count) is None <==> (offset_y < 0 || offset_y / row_height >= count),
        row_at(offset_y, row_height, count) is None <==> (offset_y < 0 || offset_y >= count * row_height),
        row_at(offset_y, row_height, count) matches Some(i) ==> {
            &&& 0 <= i < count
            &&& i == offset_y / row_height
            &&& i * row_height <= offset_y < (i + 1) * row_height
        },
{
    let q = offset_y / row_height;
    lemma_fundamental_div_mod(offset_y, row_height);
    lemma_mod_bound(offset_y, row_height);
    assert(offset_y == q * row_height + offset_y % row_height) by (nonlinear_arith)
        requires offset_y == row_height * q + offset_y % row_height;
    if q >= count {
        assert(q * row_height >= count * row_height) by (nonlinear_arith)
            requires q >= count, row_height > 0;
    } else {
        assert((q + 1) * row_height <= count * row_height) by (nonlinear_arith)
            requires q + 1 <= count, row_height > 0;
        assert((q + 1) * row_height == q * row_height + row_height) by (nonlinear_arith);
    }
    if offset_y < 0 {
        lemma_div_negative(offset_y, row_height);
    }
    if offset_y >= 0 {
        assert(q >= 0) by {
            if q < 0 {
                assert(q * row_height <= -row_height) by (nonlinear_arith)
                    requires q < 0, row_height > 0;
            }
        }
    }
}

} // verus!
