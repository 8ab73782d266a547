//! Wrap-around arithmetic on one axis of a bounded grid, and the types that
//! describe a cell and the grid's extent.

use vstd::prelude::*;

verus! {

/// A cell of the grid, as its column and its row.
#[derive(Debug, Clone, Copy, PartialEq, Eq, Structural)]
pub struct Vector(pub u16, pub u16);

impl Vector {
    pub fn new(x: u16, y: u16) -> (r: Vector)
        ensures
            r == Vector(x, y),
    {
        Vector(x, y)
    }
}

/// The playable grid: inclusive column bounds `x` and row bounds `y`.
#[derive(Debug, Clone, Copy)]
pub struct Dimensions {
    pub x: (u16, u16),
    pub y: (u16, u16),
}

impl Dimensions {
    /// Each axis holds more than one value, so that food can be drawn from
    /// the half-open interior `[lo, hi)` of both.
    pub open spec fn wf(self) -> bool {
        self.x.0 < self.x.1 && self.y.0 < self.y.1
    }

    /// Where food may be placed: the half-open ranges `[lo, hi)` of both axes.
    pub open spec fn in_spawn_range(self, p: Vector) -> bool {
        self.x.0 <= p.0 < self.x.1 && self.y.0 <= p.1 < self.y.1
    }
}

/// The value one step below `v` on the axis `[lo, hi]`, reentering at `hi`
/// when the step would leave the range.
pub open spec fn decrement(v: u16, lo: u16, hi: u16) -> u16 {
    if v > lo {
        (v - 1) as u16
    } else {
        hi
    }
}

/// The value one step above `v` on the axis `[lo, hi]`, reentering at `lo`
/// when the step would leave the range.
pub open spec fn increment(v: u16, lo: u16, hi: u16) -> u16 {
    if v < hi {
        (v + 1) as u16
    } else {
        lo
    }
}

/// Steps `v` down by one on the axis `[lo, hi]`, wrapping to `hi`.
pub fn step_down(v: u16, lo: u16, hi: u16) -> (r: u16)
    ensures
        r == decrement(v, lo, hi),
{
    if v > lo {
        v - 1
    } else {
        hi
    }
}

/// Steps `v` up by one on the axis `[lo, hi]`, wrapping to `lo`.
pub fn step_up(v: u16, lo: u16, hi: u16) -> (r: u16)
    ensures
        r == increment(v, lo, hi),
{
    if v < hi {
        v + 1
    } else {
        lo
    }
}

/// On an axis with `lo < hi`, stepping down and then up returns to the
/// starting value, and so does stepping up and then down: the axis is a
/// cycle.
pub proof fn lemma_wrap_round_trip(v: u16, lo: u16, hi: u16)
    requires
        lo < hi,
        lo <= v <= hi,
    ensures
        increment(decrement(v, lo, hi), lo, hi) == v,
        decrement(increment(v, lo, hi), lo, hi) == v,
{
}

} // verus!
