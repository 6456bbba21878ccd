//! The things on the grid: points, the snake and its food.

use rand::Rng;
use std::collections::VecDeque;
use vstd::prelude::*;

use crate::config::{
    BORDER_END_X, BORDER_END_Y, INTERIOR_START_X, INTERIOR_START_Y, RESPAWN_ATTEMPTS,
};
use crate::grid::{
    free_cell_at, free_cell_count, has_free_cell, inside_border, is_free_cell, lemma_has_free_cell,
    nth_free_cell,
};

verus! {

/// A cell of the grid, by column and row.
#[derive(Clone, Copy, Debug, PartialEq, Eq, Structural)]
pub struct Point {
    pub x: u32,
    pub y: u32,
}

impl Point {
    pub fn new(x: u32, y: u32) -> (p: Self)
        ensures
            p == (Point { x, y }),
    {
        Self { x, y }
    }

    pub fn get_x(&self) -> (x: u32)
        ensures
            x == self.x,
    {
        self.x
    }

    pub fn get_y(&self) -> (y: u32)
        ensures
            y == self.y,
    {
        self.y
    }
}

/// Draws a number from `low` up to, but not including, `high`.
///
/// Trusted: the body asks `rand::thread_rng` for the generator of the current
/// thread and calls `Rng::gen_range` on it with the half-open range
/// `low..high`. `gen_range` panics on an empty range, which the precondition
/// rules out, and otherwise returns a member of the range. Nothing is claimed
/// about which member: two calls with the same bounds may differ.
/// `thread_rng` seeds its generator from the operating system when a thread
/// first asks for it, and panics if the system can give no seed; no
/// precondition can rule that out.
#[verifier::external_body]
fn random_in_range(low: u32, high: u32) -> (drawn: u32)
    requires
        low < high,
    ensures
        low <= drawn < high,
{
    rand::thread_rng().gen_range(low..high)
}

/// The food: one cell of the grid.
pub struct Apple {
    position: Point,
}

impl View for Apple {
    type V = Point;

    /// The cell the food lies on.
    closed spec fn view(&self) -> Point {
        self.position
    }
}

impl Apple {
    /// Food always lies strictly inside the wall.
    #[verifier::type_invariant]
    spec fn inside(self) -> bool {
        inside_border(self.position)
    }

    /// Food on a random cell inside the wall that the snake does not cover.
    pub fn new(snek: &Snek) -> (apple: Self)
        requires
            has_free_cell(snek@),
        ensures
            is_free_cell(snek@, apple@),
    {
        Self { position: Self::random_point(snek).unwrap() }
    }

    /// Food on the cell in column `x` and row `y`, if that cell lies inside
    /// the wall and the snake does not cover it.
    pub fn place(snek: &Snek, x: u32, y: u32) -> (apple: Option<Self>)
        ensures
            apple is Some <==> is_free_cell(snek@, Point { x, y }),
            apple matches Some(placed) ==> placed@ == (Point { x, y }),
    {
        match free_cell_at(snek, x, y) {
            Some(position) => Some(Self { position }),
            None => None,
        }
    }

    pub fn get_position(&self) -> (position: &Point)
        ensures
            *position == self@,
            inside_border(*position),
    {
        proof {
            use_type_invariant(self);
        }
        &self.position
    }

    /// Picks a free cell at random, or `None` when the snake leaves no cell
    /// free.
    ///
    /// Cells inside the wall are drawn blindly at first, and the first one
    /// that turns out free is taken. If `RESPAWN_ATTEMPTS` draws in a row
    /// hit the snake, the free cells are counted and one of them is drawn by
    /// its number, so the search always ends.
    fn random_point(snek: &Snek) -> (found: Option<Point>)
        ensures
            found is Some <==> has_free_cell(snek@),
            found matches Some(cell) ==> is_free_cell(snek@, cell),
    {
        let mut attempt: u32 = 0;
        while attempt < RESPAWN_ATTEMPTS
            invariant
                attempt <= RESPAWN_ATTEMPTS,
            decreases RESPAWN_ATTEMPTS - attempt,
        {
            let x: u32 = random_in_range(INTERIOR_START_X, BORDER_END_X);
            let y: u32 = random_in_range(INTERIOR_START_Y, BORDER_END_Y);
            let candidate = free_cell_at(snek, x, y);
            if candidate.is_some() {
                return candidate;
            }
            attempt += 1;
        }
        let count = free_cell_count(snek);
        proof {
            lemma_has_free_cell(snek@);
        }
        if count == 0 {
            return None;
        }
        let k: u32 = random_in_range(0, count);
        Some(nth_free_cell(snek, k))
    }

    /// Moves the food to a random cell inside the wall that the snake does
    /// not cover.
    pub fn update_position(&mut self, snek: &Snek)
        requires
            has_free_cell(snek@),
        ensures
            is_free_cell(snek@, final(self)@),
    {
        self.position = Self::random_point(snek).unwrap();
    }

    /// Moves the food as `update_position` does if the snake leaves a cell
    /// free, and says whether it did. With no cell free the food stays.
    pub fn try_update_position(&mut self, snek: &Snek) -> (moved: bool)
        ensures
            moved == has_free_cell(snek@),
            moved ==> is_free_cell(snek@, final(self)@),
            !moved ==> final(self)@ == old(self)@,
    {
        match Self::random_point(snek) {
            Some(cell) => {
                self.position = cell;
                true
            },
            None => false,
        }
    }
}

/// One of the four ways the snake can travel.
#[derive(Clone, Copy, Debug, PartialEq, Eq, Structural)]
pub enum Direction {
    Left,
    Right,
    Up,
    Down,
}

impl Direction {
    /// The direction that points the other way.
    pub open spec fn reverse(self) -> Direction {
        match self {
            Direction::Left => Direction::Right,
            Direction::Right => Direction::Left,
            Direction::Up => Direction::Down,
            Direction::Down => Direction::Up,
        }
    }

    /// The heading of a snake that travels in `self` and is asked to travel
    /// in `wanted`: a snake cannot turn back on itself, every other request
    /// is granted.
    pub open spec fn turned(self, wanted: Direction) -> Direction {
        if wanted == self.reverse() {
            self
        } else {
            wanted
        }
    }

    pub fn opposite(self) -> (d: Direction)
        ensures
            d == self.reverse(),
    {
        match self {
            Direction::Left => Direction::Right,
            Direction::Right => Direction::Left,
            Direction::Up => Direction::Down,
            Direction::Down => Direction::Up,
        }
    }
}

/// Whether a head at `head` can move one cell in `heading` without leaving
/// the range of its coordinates.
pub open spec fn can_step(head: Point, heading: Direction) -> bool {
    match heading {
        Direction::Left => head.x > 0,
        Direction::Right => head.x < u32::MAX,
        Direction::Up => head.y > 0,
        Direction::Down => head.y < u32::MAX,
    }
}

/// The cell next to `head` in `heading`. Rows count downwards, so `Up` is
/// towards row 0.
pub open spec fn step(head: Point, heading: Direction) -> Point {
    match heading {
        Direction::Left => Point { x: (head.x - 1) as u32, y: head.y },
        Direction::Right => Point { x: (head.x + 1) as u32, y: head.y },
        Direction::Up => Point { x: head.x, y: (head.y - 1) as u32 },
        Direction::Down => Point { x: head.x, y: (head.y + 1) as u32 },
    }
}

/// The body after one move in `heading`: the new head goes in front, and
/// unless the snake grows its last cell is given up.
pub open spec fn advanced(body: Seq<Point>, heading: Direction, is_growing: bool) -> Seq<Point> {
    let grown = seq![step(body[0], heading)] + body;
    if is_growing {
        grown
    } else {
        grown.drop_last()
    }
}

/// The snake: its body from head to tail, and the way it is heading.
pub struct Snek {
    position: VecDeque<Point>,
    direction: Direction,
}

impl View for Snek {
    type V = Seq<Point>;

    /// The body, head first.
    closed spec fn view(&self) -> Seq<Point> {
        self.position@
    }
}

impl Snek {
    /// The way the snake is heading.
    pub closed spec fn heading(&self) -> Direction {
        self.direction
    }

    /// A snake always has a head.
    pub open spec fn wf(&self) -> bool {
        self@.len() > 0
    }

    pub fn new(position: VecDeque<Point>) -> (snek: Self)
        requires
            position@.len() > 0,
        ensures
            snek.wf(),
            snek@ == position@,
            snek.heading() == Direction::Right,
    {
        Self { position, direction: Direction::Right }
    }

    pub fn get_position(&self) -> (position: &VecDeque<Point>)
        ensures
            position@ == self@,
    {
        &self.position
    }

    pub fn get_head_position(&self) -> (head: &Point)
        requires
            self.wf(),
        ensures
            *head == self@[0],
    {
        &self.position[0]
    }

    pub fn get_direction(&self) -> (direction: Direction)
        ensures
            direction == self.heading(),
    {
        self.direction
    }

    /// Whether any part of the body lies on `point`.
    pub fn occupies(&self, point: &Point) -> (found: bool)
        ensures
            found == self@.contains(*point),
    {
        let mut i: usize = 0;
        while i < self.position.len()
            invariant
                i <= self.position@.len(),
                forall|j: int| 0 <= j < i ==> self.position@[j] != *point,
            decreases self.position@.len() - i,
        {
            if self.position[i] == *point {
                return true;
            }
            i += 1;
        }
        false
    }

    /// Asks the snake to head in `direction`. The body does not move.
    pub fn set_heading(&mut self, direction: Direction)
        ensures
            final(self).heading() == old(self).heading().turned(direction),
            final(self)@ == old(self)@,
    {
        if direction != self.direction.opposite() {
            self.direction = direction;
        }
    }

    pub fn move_left(&mut self)
        ensures
            final(self).heading() == old(self).heading().turned(Direction::Left),
            final(self)@ == old(self)@,
    {
        self.set_heading(Direction::Left);
    }

    pub fn move_right(&mut self)
        ensures
            final(self).heading() == old(self).heading().turned(Direction::Right),
            final(self)@ == old(self)@,
    {
        self.set_heading(Direction::Right);
    }

    pub fn move_up(&mut self)
        ensures
            final(self).heading() == old(self).heading().turned(Direction::Up),
            final(self)@ == old(self)@,
    {
        self.set_heading(Direction::Up);
    }

    pub fn move_down(&mut self)
        ensures
            final(self).heading() == old(self).heading().turned(Direction::Down),
            final(self)@ == old(self)@,
    {
        self.set_heading(Direction::Down);
    }

    /// Moves the snake one cell in its heading.
    pub fn update(&mut self, is_growing: bool)
        requires
            old(self).wf(),
            can_step(old(self)@[0], old(self).heading()),
        ensures
            final(self).wf(),
            final(self)@ == advanced(old(self)@, old(self).heading(), is_growing),
            final(self)@.len() == old(self)@.len() + if is_growing { 1int } else { 0int },
            final(self).heading() == old(self).heading(),
    {
        let head = self.position[0];
        let updated_head = match self.direction {
            Direction::Left => Point::new(head.get_x() - 1, head.get_y()),
            Direction::Right => Point::new(head.get_x() + 1, head.get_y()),
            Direction::Up => Point::new(head.get_x(), head.get_y() - 1),
            Direction::Down => Point::new(head.get_x(), head.get_y() + 1),
        };

        self.position.push_front(updated_head);

        if !is_growing {
            self.position.pop_back();
        }
    }
}

} // verus!
