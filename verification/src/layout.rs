//! Points on the screen, in pixels.
use vstd::prelude::*;

verus! {

/// A point on the screen.
#[derive(Clone, Copy, Debug, PartialEq, Eq, Structural)]
pub struct Point {
    pub x: i64,
    pub y: i64,
}

/// Columns of actors are short enough for their places to be numbers.
pub open spec fn fits_column(id: int) -> bool {
    0 <= id && 10_000 * (id + 1) <= i64::MAX
}

/// Columns may be as long as anybody would draw them, and longer.
pub proof fn law_columns_are_long(id: int)
    requires
        0 <= id <= 900_000_000_000_000,
    ensures
        fits_column(id),
{
}

/// The place of the actor with the given number in a column.
pub open spec fn column_place(x: int, top: int, step: int, id: int) -> Point {
    Point { x: x as i64, y: (top + step * id) as i64 }
}

/// The place of the actor with the given number in a column that starts at
/// `top` and has one actor every `step` pixels.
pub fn in_column(x: i64, top: i64, step: i64, id: usize) -> (p: Point)
    requires
        fits_column(id as int),
        0 <= top <= 10_000,
        0 <= step <= 10_000,
    ensures
        p == column_place(x as int, top as int, step as int, id as int),
        p.x == x,
        p.y == top + step * id,
{
    assert(0 <= step * id <= 10_000 * id) by (nonlinear_arith)
        requires
            0 <= step <= 10_000,
            0 <= id,
    ;
    Point { x, y: top + step * (id as i64) }
}

} // verus!
