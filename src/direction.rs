//! The snake's heading and the rule that refuses a reversal.

use vstd::prelude::*;

verus! {

#[derive(Debug, Clone, Copy, PartialEq, Eq, Structural)]
pub enum Direction {
    Left,
    Up,
    Right,
    Down,
}

impl Direction {
    /// The heading that points the other way along the same axis.
    pub open spec fn opposite_of(self) -> Direction {
        match self {
            Direction::Left => Direction::Right,
            Direction::Right => Direction::Left,
            Direction::Up => Direction::Down,
            Direction::Down => Direction::Up,
        }
    }

    pub fn opposite(&self) -> (r: Direction)
        ensures
            r == self.opposite_of(),
    {
        match self {
            Direction::Left => Direction::Right,
            Direction::Right => Direction::Left,
            Direction::Up => Direction::Down,
            Direction::Down => Direction::Up,
        }
    }

    /// The heading after a request to turn towards `requested`: the request
    /// is taken unless it would reverse the current heading.
    pub fn turned(self, requested: Direction) -> (r: Direction)
        ensures
            requested == self.opposite_of() ==> r == self,
            requested != self.opposite_of() ==> r == requested,
    {
        if requested == self.opposite() {
            self
        } else {
            requested
        }
    }
}

} // verus!
