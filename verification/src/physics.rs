//! The collision rules, each a predicate on the current state.

use vstd::prelude::*;

use crate::config::{BORDER_END_X, BORDER_END_Y, BORDER_START_X, BORDER_START_Y};
use crate::entities::{can_step, Apple, Direction, Point, Snek};
use crate::grid::inside_border;

verus! {

/// Whether `p` lies on the wall or beyond it.
pub open spec fn hits_border(p: Point) -> bool {
    ||| p.x <= BORDER_START_X
    ||| p.x >= BORDER_END_X
    ||| p.y <= BORDER_START_Y
    ||| p.y >= BORDER_END_Y
}

/// Whether the head of `body` shares its cell with another part of the body.
pub open spec fn bites_itself(body: Seq<Point>) -> bool {
    exists|i: int| 1 <= i < body.len() && #[trigger] body[i] == body[0]
}

/// A cell is on or beyond the wall exactly when it is not strictly inside it.
pub proof fn lemma_border_or_inside(p: Point)
    ensures
        hits_border(p) <==> !inside_border(p),
{
}

/// A body whose cells are all distinct does not bite itself.
pub proof fn lemma_distinct_body_is_safe(body: Seq<Point>)
    requires
        body.no_duplicates(),
    ensures
        !bites_itself(body),
{
}

/// A head that is clear of the wall can move one cell in any direction
/// without leaving the range of its coordinates.
pub proof fn lemma_clear_of_border_can_step(head: Point, heading: Direction)
    requires
        !hits_border(head),
    ensures
        can_step(head, heading),
{
}

pub fn is_apple_collision(snek: &Snek, apple: &Apple) -> (hit: bool)
    requires
        snek.wf(),
    ensures
        hit == (apple@ == snek@[0]),
{
    *apple.get_position() == *snek.get_head_position()
}

pub fn is_snek_collision(snek: &Snek) -> (hit: bool)
    requires
        snek.wf(),
    ensures
        hit == bites_itself(snek@),
{
    let body = snek.get_position();
    let head = *snek.get_head_position();
    let mut i: usize = 1;
    while i < body.len()
        invariant
            1 <= i <= body@.len(),
            body@ == snek@,
            head == body@[0],
            forall|j: int| 1 <= j < i ==> body@[j] != head,
        decreases body@.len() - i,
    {
        if body[i] == head {
            return true;
        }
        i += 1;
    }
    false
}

pub fn is_border_collision(snek: &Snek) -> (hit: bool)
    requires
        snek.wf(),
    ensures
        hit == hits_border(snek@[0]),
{
    let head = snek.get_head_position();
    head.get_x() <= BORDER_START_X || head.get_x() >= BORDER_END_X
        || head.get_y() <= BORDER_START_Y || head.get_y() >= BORDER_END_Y
}

} // verus!
