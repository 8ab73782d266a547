//! The game state and its tick: step the head, end the game on a
//! self-collision, grow on food or move on, and place new food.

use rand::Rng;
use vstd::prelude::*;

use crate::body::Body;
use crate::direction::Direction;
use crate::geometry::{decrement, increment, step_down, step_up, Dimensions, Vector};

verus! {

/// Why a tick did not go through.
#[derive(Debug, Clone, Copy, PartialEq, Eq, Structural)]
pub enum TickError {
    /// The body has no head to move.
    EmptyBody,
    /// The new head landed on the body: the game is over.
    GameOver,
}

/// One cell to be drawn, by its column and row.
#[derive(Debug, Clone, Copy, PartialEq, Eq, Structural)]
pub struct Cube {
    pub x: u16,
    pub y: u16,
}

impl Cube {
    pub fn new(x: u16, y: u16) -> (r: Cube)
        ensures
            r == (Cube { x, y }),
    {
        Cube { x, y }
    }
}

/// The cell drawn for the grid cell `v`.
pub open spec fn cube_of(v: Vector) -> Cube {
    Cube { x: v.0, y: v.1 }
}

/// The cell one step from `v` in direction `d`, wrapping at the bounds of `dims`.
pub open spec fn step(v: Vector, d: Direction, dims: Dimensions) -> Vector {
    match d {
        Direction::Left => Vector(decrement(v.0, dims.x.0, dims.x.1), v.1),
        Direction::Right => Vector(increment(v.0, dims.x.0, dims.x.1), v.1),
        Direction::Up => Vector(v.0, decrement(v.1, dims.y.0, dims.y.1)),
        Direction::Down => Vector(v.0, increment(v.1, dims.y.0, dims.y.1)),
    }
}

/// Relies on rand's `Rng::gen_range` over the half-open range `lo..hi` on the
/// thread-local generator: the value lies in `[lo, hi)`. It panics on an
/// empty range, which `requires` leaves out.
#[verifier::external_body]
fn draw_in(lo: u16, hi: u16) -> (r: u16)
    requires
        lo < hi,
    ensures
        lo <= r < hi,
{
    rand::thread_rng().gen_range(lo..hi)
}

impl Dimensions {
    /// A random cell in the half-open interior `[lo, hi)` of both axes.
    /// The body is not consulted: the cell may be one the snake covers.
    pub fn spawn_point(&self) -> (r: Vector)
        requires
            self.wf(),
        ensures
            self.in_spawn_range(r),
    {
        let x = draw_in(self.x.0, self.x.1);
        let y = draw_in(self.y.0, self.y.1);
        Vector::new(x, y)
    }
}

pub struct Game {
    pub body: Body,
    pub direction: Direction,
    pub dimensions: Dimensions,
    /// The food, when there is one.
    pub block: Option<Vector>,
}

impl Game {
    /// A game whose body is the single cell `start`, heading right, with no food.
    pub fn new(dimensions: Dimensions, start: Vector) -> (r: Game)
        ensures
            r.body@ == seq![start],
            r.direction == Direction::Right,
            r.dimensions == dimensions,
            r.block is None,
    {
        Game { body: Body::new(start), direction: Direction::Right, dimensions, block: None }
    }

    /// The state of a running game: a non-empty body without repeated cells.
    pub open spec fn alive(self) -> bool {
        self.body@.len() > 0 && self.body@.no_duplicates()
    }

    /// Where the head goes on the next tick.
    pub open spec fn next_head(self) -> Vector {
        step(self.body@[0], self.direction, self.dimensions)
    }

    /// The next head lands on the body.
    pub open spec fn collides(self) -> bool {
        self.body@.contains(self.next_head())
    }

    /// The next head lands on the food.
    pub open spec fn eats(self) -> bool {
        self.block == Some(self.next_head())
    }

    /// Moves the head one cell in the current direction. On a collision the
    /// game is over and nothing changes; on the food the body grows and the
    /// food is gone; otherwise the body moves one cell.
    pub fn go_forward(&mut self) -> (r: Result<(), TickError>)
        ensures
            final(self).direction == old(self).direction,
            final(self).dimensions == old(self).dimensions,
            old(self).body@.len() == 0 ==> r == Err::<(), TickError>(TickError::EmptyBody),
            old(self).body@.len() > 0 && old(self).collides() ==> r == Err::<(), TickError>(
                TickError::GameOver,
            ),
            r is Err ==> final(self).body@ == old(self).body@ && final(self).block
                == old(self).block,
            old(self).body@.len() > 0 && !old(self).collides() ==> r is Ok,
            r is Ok && old(self).eats() ==> final(self).body@ == seq![old(self).next_head()] + old(
                self,
            ).body@ && final(self).block is None,
            r is Ok && !old(self).eats() ==> final(self).body@ == seq![old(self).next_head()]
                + old(self).body@.drop_last() && final(self).block == old(self).block,
            // what the two outcomes do to the length and the food
            r is Ok && old(self).eats() ==> final(self).body@.len() == old(self).body@.len() + 1
                && final(self).block is None,
            r is Ok && !old(self).eats() ==> final(self).body@.len() == old(self).body@.len()
                && final(self).body@[0] == old(self).next_head() && !old(self).body@.contains(
                final(self).body@[0],
            ) && final(self).body@.drop_first() == old(self).body@.drop_last(),
            old(self).alive() && r is Ok ==> final(self).alive(),
    {
        match self.body.head() {
            Some(head) => {
                let mut new_head = head;
                match self.direction {
                    Direction::Right => self.move_vec_right(&mut new_head),
                    Direction::Left => self.move_vec_left(&mut new_head),
                    Direction::Up => self.move_vec_up(&mut new_head),
                    Direction::Down => self.move_vec_down(&mut new_head),
                }
                if self.vec_intersects_with_body(&new_head) {
                    return Err(TickError::GameOver);
                }
                let mut pop_back = true;
                if let Some(block) = self.block {
                    if block == new_head {
                        self.block = None;
                        pop_back = false;
                    }
                }
                let ghost pre = self.body@;
                if pop_back {
                    self.body.advance_front(new_head);
                    assert(self.body@.drop_first() =~= pre.drop_last());
                } else {
                    self.body.grow_front(new_head);
                }
                proof {
                    if pre.no_duplicates() {
                        crate::body::lemma_push_front_distinct(pre, new_head);
                    }
                }
                Ok(())
            },
            None => Err(TickError::EmptyBody),
        }
    }

    /// Whether `vec` is one of the body's cells.
    pub fn vec_intersects_with_body(&self, vec: &Vector) -> (r: bool)
        ensures
            r == self.body@.contains(*vec),
    {
        self.body.contains(vec)
    }

    /// Moves `vec` one column left, wrapping to the right edge.
    pub fn move_vec_left(&mut self, vec: &mut Vector)
        ensures
            *final(vec) == step(*old(vec), Direction::Left, old(self).dimensions),
            *final(self) == *old(self),
    {
        vec.0 = step_down(vec.0, self.dimensions.x.0, self.dimensions.x.1);
    }

    /// Moves `vec` one column right, wrapping to the left edge.
    pub fn move_vec_right(&mut self, vec: &mut Vector)
        ensures
            *final(vec) == step(*old(vec), Direction::Right, old(self).dimensions),
            *final(self) == *old(self),
    {
        vec.0 = step_up(vec.0, self.dimensions.x.0, self.dimensions.x.1);
    }

    /// Moves `vec` one row up, wrapping to the bottom edge.
    pub fn move_vec_up(&mut self, vec: &mut Vector)
        ensures
            *final(vec) == step(*old(vec), Direction::Up, old(self).dimensions),
            *final(self) == *old(self),
    {
        vec.1 = step_down(vec.1, self.dimensions.y.0, self.dimensions.y.1);
    }

    /// Moves `vec` one row down, wrapping to the top edge.
    pub fn move_vec_down(&mut self, vec: &mut Vector)
        ensures
            *final(vec) == step(*old(vec), Direction::Down, old(self).dimensions),
            *final(self) == *old(self),
    {
        vec.1 = step_up(vec.1, self.dimensions.y.0, self.dimensions.y.1);
    }

    /// Turns towards `requested`, unless it is the reverse of the current
    /// heading, in which case the request is ignored.
    pub fn set_direction(&mut self, requested: Direction)
        ensures
            requested == old(self).direction.opposite_of() ==> final(self).direction == old(
                self,
            ).direction,
            requested != old(self).direction.opposite_of() ==> final(self).direction
                == requested,
            final(self).direction != old(self).direction.opposite_of(),
            final(self).body@ == old(self).body@,
            final(self).dimensions == old(self).dimensions,
            final(self).block == old(self).block,
    {
        self.direction = self.direction.turned(requested);
    }

    /// Puts the food on `p` when there is none; food already in place stays.
    pub fn place_food(&mut self, p: Vector)
        ensures
            old(self).block is None ==> final(self).block == Some(p),
            old(self).block is Some ==> final(self).block == old(self).block,
            final(self).body@ == old(self).body@,
            final(self).direction == old(self).direction,
            final(self).dimensions == old(self).dimensions,
    {
        if self.block.is_none() {
            self.block = Some(p);
        }
    }

    /// Puts food on a random cell of the grid's interior when there is none.
    pub fn spawn_food(&mut self)
        requires
            old(self).dimensions.wf(),
        ensures
            old(self).block is None ==> (exists|p: Vector|
                #![trigger old(self).dimensions.in_spawn_range(p)]
                old(self).dimensions.in_spawn_range(p) && final(self).block == Some(p)),
            old(self).block is Some ==> final(self).block == old(self).block,
            final(self).body@ == old(self).body@,
            final(self).direction == old(self).direction,
            final(self).dimensions == old(self).dimensions,
    {
        if self.block.is_none() {
            let p = self.dimensions.spawn_point();
            self.place_food(p);
        }
    }

    /// One tick of the game: moves as `go_forward` does and, when the move
    /// went through and no food is left, places new food.
    pub fn tick(&mut self) -> (r: Result<(), TickError>)
        requires
            old(self).dimensions.wf(),
        ensures
            final(self).direction == old(self).direction,
            final(self).dimensions == old(self).dimensions,
            old(self).body@.len() == 0 ==> r == Err::<(), TickError>(TickError::EmptyBody),
            old(self).body@.len() > 0 && old(self).collides() ==> r == Err::<(), TickError>(
                TickError::GameOver,
            ),
            old(self).body@.len() > 0 && !old(self).collides() ==> r is Ok,
            r is Err ==> final(self).body@ == old(self).body@ && final(self).block
                == old(self).block,
            r is Ok && old(self).eats() ==> final(self).body@ == seq![old(self).next_head()] + old(
                self,
            ).body@,
            r is Ok && !old(self).eats() ==> final(self).body@ == seq![old(self).next_head()]
                + old(self).body@.drop_last(),
            r is Ok && old(self).block is Some && !old(self).eats() ==> final(self).block == old(
                self,
            ).block,
            r is Ok && (old(self).block is None || old(self).eats()) ==> (exists|p: Vector|
                #![trigger old(self).dimensions.in_spawn_range(p)]
                old(self).dimensions.in_spawn_range(p) && final(self).block == Some(p)),
            old(self).alive() && r is Ok ==> final(self).alive(),
    {
        let r = self.go_forward();
        if r.is_ok() {
            self.spawn_food();
        }
        r
    }

    /// The cells to draw: the body from head to tail, then the food if any.
    pub fn cubes(&self) -> (r: Vec<Cube>)
        ensures
            self.block is None ==> r@.len() == self.body@.len(),
            self.block is Some ==> r@.len() == self.body@.len() + 1 && r@.last() == cube_of(
                self.block->0,
            ),
            forall|i: int| 0 <= i < self.body@.len() ==> r@[i] == cube_of(self.body@[i]),
    {
        let cells = self.body.segments();
        let mut out: Vec<Cube> = Vec::new();
        let mut i: usize = 0;
        while i < cells.len()
            invariant
                i <= cells@.len(),
                cells@ == self.body@,
                out@.len() == i,
                forall|j: int| 0 <= j < i ==> out@[j] == cube_of(cells@[j]),
            decreases cells@.len() - i,
        {
            out.push(Cube::new(cells[i].0, cells[i].1));
            i = i + 1;
        }
        if let Some(block) = self.block {
            out.push(Cube::new(block.0, block.1));
        }
        out
    }

    /// The score: the number of cells in the body.
    pub fn score(&self) -> (r: usize)
        ensures
            r == self.body@.len(),
    {
        self.body.length()
    }
}

} // verus!
