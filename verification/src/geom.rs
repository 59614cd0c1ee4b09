//! Exact planar geometry: points, interval clamping, and the axis-aligned
//! box overlap test that paddle collision uses.

use vstd::prelude::*;

verus! {

/// A planar point or vector with exact integer coordinates.
#[derive(Clone, Copy, Debug, PartialEq, Eq, Structural)]
pub struct Point2 {
    pub x: i64,
    pub y: i64,
}

/// The mathematical value of a [`Point2`].
pub ghost struct Point2View {
    pub x: int,
    pub y: int,
}

impl View for Point2 {
    type V = Point2View;

    open spec fn view(&self) -> Point2View {
        Point2View { x: self.x as int, y: self.y as int }
    }
}

/// `v` pulled into the interval `[lo, hi]`; when the interval is empty
/// (`lo > hi`), the lower bound wins, as in the game's clamp.
pub open spec fn clamped(v: int, lo: int, hi: int) -> int {
    if v < lo {
        lo
    } else if v > hi {
        hi
    } else {
        v
    }
}

/// The absolute value of an integer.
pub open spec fn abs_int(v: int) -> int {
    if v < 0 {
        -v
    } else {
        v
    }
}

/// Whether two open axis-aligned boxes, given by center and half-extents,
/// overlap; every comparison is strict, so touching edges do not count.
pub open spec fn boxes_overlap(
    ax: int,
    ay: int,
    a_half_w: int,
    a_half_h: int,
    bx: int,
    by: int,
    b_half_w: int,
    b_half_h: int,
) -> bool {
    &&& ax - a_half_w < bx + b_half_w
    &&& ax + a_half_w > bx - b_half_w
    &&& ay - a_half_h < by + b_half_h
    &&& ay + a_half_h > by - b_half_h
}

/// Executable clamp into `[lo, hi]`, lower bound winning on an empty interval.
pub fn clamp_i64(v: i64, lo: i64, hi: i64) -> (r: i64)
    ensures
        r as int == clamped(v as int, lo as int, hi as int),
{
    if v < lo {
        lo
    } else if v > hi {
        hi
    } else {
        v
    }
}

/// Executable absolute value.
pub fn abs_i64(v: i64) -> (r: i64)
    requires
        v != i64::MIN,
    ensures
        r as int == abs_int(v as int),
{
    if v < 0 {
        -v
    } else {
        v
    }
}

/// Executable box overlap test; the bound on every coordinate keeps the
/// sums inside `i64`.
pub fn boxes_overlap_i64(
    ax: i64,
    ay: i64,
    a_half_w: i64,
    a_half_h: i64,
    bx: i64,
    by: i64,
    b_half_w: i64,
    b_half_h: i64,
) -> (r: bool)
    requires
        -0x2000_0000_0000_0000 <= ax <= 0x2000_0000_0000_0000,
        -0x2000_0000_0000_0000 <= ay <= 0x2000_0000_0000_0000,
        -0x2000_0000_0000_0000 <= a_half_w <= 0x2000_0000_0000_0000,
        -0x2000_0000_0000_0000 <= a_half_h <= 0x2000_0000_0000_0000,
        -0x2000_0000_0000_0000 <= bx <= 0x2000_0000_0000_0000,
        -0x2000_0000_0000_0000 <= by <= 0x2000_0000_0000_0000,
        -0x2000_0000_0000_0000 <= b_half_w <= 0x2000_0000_0000_0000,
        -0x2000_0000_0000_0000 <= b_half_h <= 0x2000_0000_0000_0000,
    ensures
        r == boxes_overlap(
            ax as int,
            ay as int,
            a_half_w as int,
            a_half_h as int,
            bx as int,
            by as int,
            b_half_w as int,
            b_half_h as int,
        ),
{
    ax - a_half_w < bx + b_half_w && ax + a_half_w > bx - b_half_w && ay - a_half_h < by
        + b_half_h && ay + a_half_h > by - b_half_h
}

} // verus!
