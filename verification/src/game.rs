//! The game as a state machine: what a key press and what a tick do to it.

use std::collections::VecDeque;
use vstd::prelude::*;
use vstd::seq_lib::lemma_seq_contains_after_push;

use crate::config::{
    BORDER_END_X, BORDER_END_Y, BORDER_START_X, BORDER_START_Y, GRID_HEIGHT, GRID_WIDTH, TICK_NANOS,
};
use crate::entities::{advanced, step, Apple, Direction, Point, Snek};
use crate::grid::{has_free_cell, inside_border, is_free_cell};
use crate::physics::{
    bites_itself, hits_border, is_apple_collision, is_border_collision, is_snek_collision,
    lemma_clear_of_border_can_step,
};

verus! {

/// Whether the game is being played, is halted for a while, or has ended.
#[derive(Clone, Copy, Debug, PartialEq, Eq, Structural)]
pub enum GameState {
    Running,
    Paused,
    GameOver,
}

/// What the player can tell the game.
#[derive(Clone, Copy, Debug, PartialEq, Eq, Structural)]
pub enum Input {
    /// Leave the game.
    Quit,
    Left,
    Right,
    Up,
    Down,
    /// Halt the game, or take it up again.
    Escape,
}

impl Input {
    /// The direction that this input asks for, if it asks for one.
    pub open spec fn direction(self) -> Option<Direction> {
        match self {
            Input::Left => Some(Direction::Left),
            Input::Right => Some(Direction::Right),
            Input::Up => Some(Direction::Up),
            Input::Down => Some(Direction::Down),
            Input::Quit | Input::Escape => None,
        }
    }
}

impl GameState {
    /// The state after the player has asked to halt or to go on: a running
    /// game halts, a halted game runs again, and a game that is over stays
    /// over.
    pub open spec fn toggled(self) -> GameState {
        match self {
            GameState::Running => GameState::Paused,
            GameState::Paused => GameState::Running,
            GameState::GameOver => GameState::GameOver,
        }
    }
}

/// The number of cells the snake starts with.
pub const START_LENGTH: u32 = 3;

/// The body that the snake starts with: a short row, a third of the way
/// across the grid and half way down, head to the right.
pub open spec fn start_body() -> Seq<Point> {
    Seq::new(
        START_LENGTH as nat,
        |i: int| Point { x: (GRID_WIDTH / 3 - i) as u32, y: GRID_HEIGHT / 2 },
    )
}

/// Whether `p` is a cell of the wall: the outline of the rectangle whose
/// corners the border constants give.
pub open spec fn on_border(p: Point) -> bool {
    ||| BORDER_START_X <= p.x <= BORDER_END_X && (p.y == BORDER_START_Y || p.y == BORDER_END_Y)
    ||| BORDER_START_Y <= p.y <= BORDER_END_Y && (p.x == BORDER_START_X || p.x == BORDER_END_X)
}

/// The snake, its food, and the state of play.
pub struct Game {
    pub snek: Snek,
    pub apple: Apple,
    pub state: GameState,
}

impl Game {
    pub open spec fn wf(&self) -> bool {
        self.snek.wf()
    }

    /// Whether `self` and `other` show the same snake, food and state.
    pub open spec fn same_as(&self, other: &Game) -> bool {
        &&& self.snek@ == other.snek@
        &&& self.snek.heading() == other.snek.heading()
        &&& self.apple@ == other.apple@
        &&& self.state == other.state
    }

    /// What an input makes of a game. Asking to halt or to go on changes the
    /// state. A direction is passed on to the snake while the game runs, and
    /// is ignored otherwise. Nothing else changes.
    pub open spec fn handled(&self, input: Input, next: &Game) -> bool {
        &&& next.snek@ == self.snek@
        &&& next.apple@ == self.apple@
        &&& next.state == if input == Input::Escape {
            self.state.toggled()
        } else {
            self.state
        }
        &&& next.snek.heading() == match input.direction() {
            Some(direction) if self.state == GameState::Running => self.snek.heading().turned(
                direction,
            ),
            _ => self.snek.heading(),
        }
    }

    /// Whether the food lies clear of every part of the snake behind its
    /// head.
    pub open spec fn food_off_body(&self) -> bool {
        !self.snek@.skip(1).contains(self.apple@)
    }

    /// Whether the snake has run into the wall or into itself.
    pub open spec fn crashed(&self) -> bool {
        hits_border(self.snek@[0]) || bites_itself(self.snek@)
    }

    /// What a tick makes of a game. Only a running game changes. A snake
    /// that has crashed ends the game and stays as it is. A snake whose head
    /// is on the food grows by a cell, and the food moves to a cell that the
    /// grown snake leaves free; if there is none, the food stays. Any other
    /// snake moves by a cell.
    pub open spec fn ticked(&self, next: &Game) -> bool {
        if self.state != GameState::Running {
            next.same_as(self)
        } else if self.crashed() {
            &&& next.state == GameState::GameOver
            &&& next.snek@ == self.snek@
            &&& next.snek.heading() == self.snek.heading()
            &&& next.apple@ == self.apple@
        } else if self.apple@ == self.snek@[0] {
            &&& next.state == GameState::Running
            &&& next.snek@ == advanced(self.snek@, self.snek.heading(), true)
            &&& next.snek.heading() == self.snek.heading()
            &&& if has_free_cell(next.snek@) {
                is_free_cell(next.snek@, next.apple@)
            } else {
                next.apple@ == self.apple@
            }
        } else {
            &&& next.state == GameState::Running
            &&& next.snek@ == advanced(self.snek@, self.snek.heading(), false)
            &&& next.snek.heading() == self.snek.heading()
            &&& next.apple@ == self.apple@
        }
    }

    /// A running game with the snake at its start and the food on a random
    /// free cell.
    pub fn new() -> (game: Self)
        ensures
            game.wf(),
            game.state == GameState::Running,
            game.snek@ == start_body(),
            game.snek.heading() == Direction::Right,
            is_free_cell(game.snek@, game.apple@),
            game.food_off_body(),
    {
        let snek = Snek::new(start_position());
        proof {
            let corner = Point { x: (BORDER_START_X + 1) as u32, y: (BORDER_START_Y + 1) as u32 };
            assert(is_free_cell(snek@, corner));
        }
        let apple = Apple::new(&snek);
        Game { snek, apple, state: GameState::Running }
    }

    /// Takes one input from the player, and says whether the game goes on:
    /// it does unless the player asked to leave.
    pub fn handle_input(&mut self, input: Input) -> (keep_running: bool)
        ensures
            keep_running == (input != Input::Quit),
            old(self).handled(input, final(self)),
    {
        match input {
            Input::Quit => {
                return false;
            },
            Input::Escape => {
                self.state = match self.state {
                    GameState::Running => GameState::Paused,
                    GameState::Paused => GameState::Running,
                    GameState::GameOver => GameState::GameOver,
                };
            },
            Input::Left => {
                if self.state == GameState::Running {
                    self.snek.move_left();
                }
            },
            Input::Right => {
                if self.state == GameState::Running {
                    self.snek.move_right();
                }
            },
            Input::Up => {
                if self.state == GameState::Running {
                    self.snek.move_up();
                }
            },
            Input::Down => {
                if self.state == GameState::Running {
                    self.snek.move_down();
                }
            },
        }
        true
    }

    /// Plays one tick.
    pub fn tick(&mut self)
        requires
            old(self).wf(),
        ensures
            final(self).wf(),
            old(self).ticked(final(self)),
    {
        if self.state == GameState::Running {
            if is_border_collision(&self.snek) || is_snek_collision(&self.snek) {
                self.state = GameState::GameOver;
            } else {
                proof {
                    lemma_clear_of_border_can_step(self.snek@[0], self.snek.heading());
                }
                if is_apple_collision(&self.snek, &self.apple) {
                    self.snek.update(true);
                    self.apple.try_update_position(&self.snek);
                } else {
                    self.snek.update(false);
                }
            }
        }
    }
}

/// A game that is over stays as it is, whatever the player asks and however
/// many ticks pass.
pub proof fn lemma_game_over_is_final(game: Game, input: Input, next: Game)
    requires
        game.state == GameState::GameOver,
        game.handled(input, &next) || game.ticked(&next),
    ensures
        next.same_as(&game),
{
}

/// A game ends in one way only: a tick finds that the running snake has
/// crashed.
pub proof fn lemma_game_ends_only_by_crash(game: Game, input: Input, next: Game)
    requires
        game.state != GameState::GameOver,
        next.state == GameState::GameOver,
        game.handled(input, &next) || game.ticked(&next),
    ensures
        game.state == GameState::Running,
        game.crashed(),
        game.ticked(&next),
{
}

/// While the game is halted the snake takes no turns and nothing moves.
pub proof fn lemma_paused_game_rests(game: Game, input: Input, next: Game)
    requires
        game.state == GameState::Paused,
        game.handled(input, &next) || game.ticked(&next),
    ensures
        next.snek@ == game.snek@,
        next.snek.heading() == game.snek.heading(),
        next.apple@ == game.apple@,
{
}

/// A tick of a running game does exactly one of three things, and the state
/// before the tick decides which: after a crash the game ends and the snake
/// stays where it is; with its head on the food the snake grows by one cell;
/// otherwise it moves and keeps its length.
pub proof fn lemma_tick_outcomes(game: Game, next: Game)
    requires
        game.wf(),
        game.state == GameState::Running,
        game.ticked(&next),
    ensures
        game.crashed() <==> next.state == GameState::GameOver,
        game.crashed() ==> next.snek@ == game.snek@,
        !game.crashed() && game.apple@ == game.snek@[0] ==> next.snek@.len() == game.snek@.len()
            + 1,
        !game.crashed() && game.apple@ != game.snek@[0] ==> next.snek@.len() == game.snek@.len(),
        !game.crashed() ==> next.snek@[0] == step(game.snek@[0], game.snek.heading()),
        next.wf(),
{
}

/// Food that a tick has moved does not lie on the snake.
pub proof fn lemma_moved_food_is_clear(game: Game, next: Game)
    requires
        game.wf(),
        game.ticked(&next),
        next.apple@ != game.apple@,
    ensures
        inside_border(next.apple@),
        !next.snek@.contains(next.apple@),
{
}

/// As long as the snake leaves a cell free, a tick keeps the food off
/// every part of the snake behind its head. The head may come to lie on the
/// food: that is how the snake eats.
pub proof fn lemma_food_stays_off_the_body(game: Game, next: Game)
    requires
        game.wf(),
        game.food_off_body(),
        game.ticked(&next),
        has_free_cell(next.snek@),
    ensures
        next.food_off_body(),
{
    let body = game.snek@;
    let food = next.apple@;
    if game.state == GameState::Running && !game.crashed() {
        if game.apple@ == body[0] {
            assert(!next.snek@.contains(food));
            if next.snek@.skip(1).contains(food) {
                let i = choose|i: int|
                    0 <= i < next.snek@.skip(1).len() && next.snek@.skip(1)[i] == food;
                assert(next.snek@[i + 1] == food);
            }
        } else {
            assert(next.snek@.skip(1) =~= body.drop_last());
            if body.drop_last().contains(food) {
                let i = choose|i: int| 0 <= i < body.drop_last().len() && body.drop_last()[i] == food;
                assert(body[i] == food);
                assert(i >= 1);
                assert(body.skip(1)[i - 1] == food);
            }
        }
    }
}

/// The body that the snake starts with.
pub fn start_position() -> (position: VecDeque<Point>)
    ensures
        position@ == start_body(),
{
    let mut position: VecDeque<Point> = VecDeque::new();
    let start_x: u32 = GRID_WIDTH / 3;
    let start_y: u32 = GRID_HEIGHT / 2;
    let mut i: u32 = 0;
    while i < START_LENGTH
        invariant
            i <= START_LENGTH,
            start_x == GRID_WIDTH / 3,
            start_y == GRID_HEIGHT / 2,
            position@ == start_body().take(i as int),
        decreases START_LENGTH - i,
    {
        position.push_back(Point::new(start_x - i, start_y));
        i += 1;
    }
    position
}

/// After two cells are added to a list, it holds what it held before and
/// the two.
proof fn lemma_contains_after_two(cells: Seq<Point>, first: Point, second: Point)
    ensures
        forall|p: Point|
            #[trigger] cells.push(first).push(second).contains(p) <==> cells.contains(p) || p == first || p
                == second,
{
    assert forall|p: Point|
        #[trigger] cells.push(first).push(second).contains(p) <==> cells.contains(p) || p == first || p
            == second by {
        lemma_seq_contains_after_push(cells, first, p);
        lemma_seq_contains_after_push(cells.push(first), second, p);
    }
}

/// The cells of the wall.
pub fn build_border() -> (border: VecDeque<Point>)
    ensures
        forall|p: Point| #[trigger] border@.contains(p) <==> on_border(p),
{
    let mut border: VecDeque<Point> = VecDeque::new();
    let mut x: u32 = BORDER_START_X;
    while x <= BORDER_END_X
        invariant
            BORDER_START_X <= x <= BORDER_END_X + 1,
            forall|p: Point|
                #[trigger] border@.contains(p) <==> BORDER_START_X <= p.x < x && (p.y == BORDER_START_Y || p.y
                    == BORDER_END_Y),
        decreases BORDER_END_X + 1 - x,
    {
        let ghost before = border@;
        let top = Point::new(x, BORDER_START_Y);
        let bottom = Point::new(x, BORDER_END_Y);
        border.push_back(top);
        border.push_back(bottom);
        proof {
            lemma_contains_after_two(before, top, bottom);
        }
        x += 1;
    }
    let mut y: u32 = BORDER_START_Y;
    while y <= BORDER_END_Y
        invariant
            BORDER_START_Y <= y <= BORDER_END_Y + 1,
            forall|p: Point|
                #[trigger] border@.contains(p) <==> {
                    ||| BORDER_START_X <= p.x <= BORDER_END_X && (p.y == BORDER_START_Y || p.y
                        == BORDER_END_Y)
                    ||| BORDER_START_Y <= p.y < y && (p.x == BORDER_START_X || p.x == BORDER_END_X)
                },
        decreases BORDER_END_Y + 1 - y,
    {
        let ghost before = border@;
        let left = Point::new(BORDER_START_X, y);
        let right = Point::new(BORDER_END_X, y);
        border.push_back(left);
        border.push_back(right);
        proof {
            lemma_contains_after_two(before, left, right);
        }
        y += 1;
    }
    let ghost before = border@;
    let corner = Point::new(BORDER_END_X, BORDER_END_Y);
    border.push_back(corner);
    proof {
        assert forall|p: Point| #[trigger]
            border@.contains(p) <==> before.contains(p) || p == corner by {
            lemma_seq_contains_after_push(before, corner, p);
        }
    }
    border
}

/// How long to wait before the next tick when `elapsed_nanos` nanoseconds of
/// this one are spent: what is left of the tick, and nothing if the tick
/// has run over.
pub fn remaining_tick_nanos(elapsed_nanos: u128) -> (wait: u64)
    ensures
        wait == if elapsed_nanos < TICK_NANOS {
            TICK_NANOS - elapsed_nanos
        } else {
            0
        },
{
    if elapsed_nanos < TICK_NANOS as u128 {
        TICK_NANOS - elapsed_nanos as u64
    } else {
        0
    }
}

} // verus!
