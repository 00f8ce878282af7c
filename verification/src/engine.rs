//! The decisions of one tick: take the input, resolve eating, move, check collisions.
//!
//! A tick has two halves. [`Game::begin_tick`] applies the sampled input and says
//! whether the player quit. Between the halves the caller makes sure an apple is on
//! the board. [`Game::finish_tick`] then resolves eating, moves the snake and
//! reports a collision; only a tick that ends [`Status::Running`] is drawn.

use crate::apple::Apple;
use crate::board::{in_grid, inside_border, on_border, perimeter, Game};
use crate::geometry::{Coord, Direction};
use crate::input::{sampled_request, Input};
use crate::snake::{touches_wall, Snake, SnakeModel};
use vstd::prelude::*;

verus! {

/// Where the game stands after a tick, or half of one.
#[derive(Clone, Copy, Debug, PartialEq, Eq, Structural)]
pub enum Status {
    /// The game goes on.
    Running,
    /// The player asked to quit; nothing more happens.
    Exiting,
    /// The snake hit the wall or itself; nothing more happens.
    Collided,
}

/// The snake that enters the move of a tick: grown by one if it is eating.
pub open spec fn fed(snake: SnakeModel, eating: bool) -> SnakeModel {
    if eating {
        snake.grow()
    } else {
        snake
    }
}

/// How a tick's second half ends for a snake that has just moved.
pub open spec fn verdict(moved: SnakeModel, height: int, width: int) -> Status {
    if moved.bites_itself() || touches_wall(moved.head(), height, width) {
        Status::Collided
    } else {
        Status::Running
    }
}

/// A head on another segment ends the tick collided, whatever the board.
pub proof fn lemma_self_collision_ends_tick(moved: SnakeModel, i: int, height: int, width: int)
    requires
        1 <= i < moved.body.len(),
        moved.body[i] == moved.head(),
    ensures
        verdict(moved, height, width) == Status::Collided,
{
    moved.lemma_bite_is_collision(i);
}

/// A head on the first or last row or column ends the tick collided.
pub proof fn lemma_wall_collision_ends_tick(moved: SnakeModel, height: int, width: int)
    requires
        moved.head().y == 0 || moved.head().y == height - 1 || moved.head().x == 0
            || moved.head().x == width - 1,
    ensures
        verdict(moved, height, width) == Status::Collided,
{
}

/// For a head inside the grid, touching the wall is the same as standing on a
/// border cell, so the wall check agrees with a look-up in the board's wall.
pub proof fn lemma_wall_check_matches_border(head: Coord, height: int, width: int)
    requires
        0 <= head.x < width,
        0 <= head.y < height,
    ensures
        touches_wall(head, height, width) == on_border(head, height, width),
        touches_wall(head, height, width) == perimeter(height, width).contains(head),
{
}

/// A tick that ends running leaves the head off the border and off the rest of
/// the body; in particular head and tail are on different cells.
pub proof fn lemma_running_snake_is_clear(moved: SnakeModel, height: int, width: int)
    requires
        moved.wf(),
        verdict(moved, height, width) == Status::Running,
    ensures
        !moved.bites_itself(),
        !on_border(moved.head(), height, width),
        moved.head() != moved.tail(),
{
    moved.lemma_unbitten_head_differs_from_tail();
}

/// A head off the border has room to step in every heading, and the step keeps
/// it in the grid.
pub proof fn lemma_inside_head_can_step(head: Coord, heading: Direction, height: int, width: int)
    requires
        inside_border(head, height, width),
        height <= i16::MAX,
        width <= i16::MAX,
        heading.is_heading(),
    ensures
        head.can_step(heading),
        in_grid(head.step(heading), height, width),
{
}

/// While the game runs the head stays off the border: a move that starts off the
/// border and ends the tick running lands off the border again.
pub proof fn lemma_running_head_stays_inside(before: SnakeModel, height: int, width: int)
    requires
        before.wf(),
        before.direction.is_heading(),
        inside_border(before.head(), height, width),
        height <= i16::MAX,
        width <= i16::MAX,
        verdict(before.slither(), height, width) == Status::Running,
    ensures
        inside_border(before.slither().head(), height, width),
{
    lemma_inside_head_can_step(before.head(), before.direction, height, width);
}

impl Game {
    /// The snake's head is on the apple's cell.
    pub open spec fn eating(snake: &Snake, apple: &Apple) -> bool {
        snake.head == apple.position
    }

    /// What [`Game::finish_tick`] needs: an apple on the board, a consistent snake
    /// with a real heading, and room in the machine integers for the step, the
    /// score and the length.
    pub open spec fn can_finish_tick(&self, snake: &Snake, apple: &Apple) -> bool {
        &&& apple.exists
        &&& snake.wf()
        &&& snake.direction.is_heading()
        &&& snake.head.can_step(snake.direction)
        &&& self.width <= i16::MAX
        &&& self.height <= i16::MAX
        &&& Game::eating(snake, apple) ==> self.score < u16::MAX && snake.length < usize::MAX
    }

    /// Run-time form of [`Game::can_finish_tick`], for callers that cannot prove it.
    pub fn ready_to_finish(&self, snake: &Snake, apple: &Apple) -> (ready: bool)
        ensures
            ready == self.can_finish_tick(snake, apple),
    {
        if !apple.exists || !snake.is_well_formed() {
            return false;
        }
        let roomy = match snake.direction {
            Direction::Up => snake.head.y > i16::MIN,
            Direction::Right => snake.head.x < i16::MAX,
            Direction::Down => snake.head.y < i16::MAX,
            Direction::Left => snake.head.x > i16::MIN,
            Direction::Exit => false,
        };
        let eating = snake.head.x == apple.position.x && snake.head.y == apple.position.y;
        roomy && self.width <= i16::MAX as u16 && self.height <= i16::MAX as u16 && (!eating || (
        self.score < u16::MAX && snake.length < usize::MAX))
    }

    /// Applies the event a tick sampled, if any, to the snake's heading.
    ///
    /// Only the heading can change: a recognised turn is taken unless it is the
    /// exact reverse of the current heading, and a quit request puts the exit
    /// value in its place.
    pub fn handle_input(&self, snake: &mut Snake, input: Option<Input>)
        ensures
            final(snake)@ == old(snake)@.steer(sampled_request(input)),
            final(snake).body == old(snake).body,
            final(snake).head == old(snake).head,
            final(snake).tail == old(snake).tail,
            final(snake).length == old(snake).length,
    {
        let request = match input {
            Some(event) => event.request(),
            None => None,
        };
        snake.steer(request);
    }

    /// First half of a tick: applies the sampled input and tells whether the
    /// player quit. Nothing but the heading changes.
    pub fn begin_tick(&self, snake: &mut Snake, input: Option<Input>) -> (status: Status)
        ensures
            final(snake)@ == old(snake)@.steer(sampled_request(input)),
            final(snake).body == old(snake).body,
            final(snake).head == old(snake).head,
            final(snake).tail == old(snake).tail,
            final(snake).length == old(snake).length,
            status == (if final(snake).direction == Direction::Exit {
                Status::Exiting
            } else {
                Status::Running
            }),
    {
        self.handle_input(snake, input);
        if snake.direction == Direction::Exit {
            Status::Exiting
        } else {
            Status::Running
        }
    }

    /// Second half of a tick. If the head is on the apple, the apple is consumed,
    /// the snake grows and the score goes up by one. Then the snake moves one cell,
    /// and the tick ends collided if the head is now on the body or on the border.
    pub fn finish_tick(&mut self, snake: &mut Snake, apple: &mut Apple) -> (status: Status)
        requires
            old(self).can_finish_tick(old(snake), old(apple)),
        ensures
            final(snake).wf(),
            final(snake)@ == fed(old(snake)@, Game::eating(old(snake), old(apple))).slither(),
            final(apple).position == old(apple).position,
            final(apple).exists == !Game::eating(old(snake), old(apple)),
            final(self).score == old(self).score + (if Game::eating(old(snake), old(apple)) {
                1int
            } else {
                0int
            }),
            final(self).height == old(self).height,
            final(self).width == old(self).width,
            final(self).wall == old(self).wall,
            final(self).polling_millis == old(self).polling_millis,
            final(snake).length == old(snake).length + (if Game::eating(old(snake), old(apple)) {
                1int
            } else {
                0int
            }),
            status == verdict(final(snake)@, final(self)@.height, final(self)@.width),
            status == Status::Running ==> final(snake).head != final(snake).tail,
            status == Status::Running && inside_border(
                old(snake).head,
                old(self)@.height,
                old(self)@.width,
            ) ==> inside_border(final(snake).head, final(self)@.height, final(self)@.width),
    {
        if snake.ate(apple) {
            apple.exists = false;
            snake.grow();
            self.increase_score();
        }
        snake.slither();
        if snake.collided_with_self() {
            return Status::Collided;
        }
        if snake.collided_with_wall(self) {
            return Status::Collided;
        }
        Status::Running
    }
}

} // verus!
