//! The apple: one cell the snake is after, respawned by rejection sampling.

use crate::board::{on_border, Game};
use crate::geometry::{contains_from, lemma_occurs_from_start, Coord};
use crate::snake::Snake;
use rand::rngs::ThreadRng;
use rand::Rng;
use vstd::prelude::*;

verus! {

/// The thread-local random number generator of the `rand` crate, carried through as is.
#[verifier::external_type_specification]
#[verifier::external_body]
pub struct ExThreadRng(rand::rngs::ThreadRng);

/// Draws a number from `0..bound` with `Rng::random_range` of the `rand` crate.
///
/// Trusted, not proved: the drawn number lies in the half-open range `0..bound`.
/// `random_range` panics on an empty range, which `bound > 0` rules out. Which
/// number comes back is left open, and so is the state the generator is left in:
/// two draws with the same bound may differ. The generator reseeds itself from the
/// operating system now and then and panics if that fails; no argument decides that.
#[verifier::external_body]
fn random_below(rng: &mut ThreadRng, bound: i16) -> (n: i16)
    requires
        0 < bound,
    ensures
        0 <= n < bound,
{
    rng.random_range(0..bound)
}

/// `cell` is neither a wall cell nor under the snake.
pub open spec fn is_free(cell: Coord, wall: Set<Coord>, body: Seq<Coord>) -> bool {
    !wall.contains(cell) && !body.contains(cell)
}

/// The apple's cell and whether it is currently on the board.
#[derive(Clone, Copy, Debug, PartialEq, Eq, Structural)]
pub struct Apple {
    /// Where the apple is, or the cell last tried while none is on the board.
    pub position: Coord,
    /// Whether an apple is on the board.
    pub exists: bool,
}

impl View for Apple {
    type V = Option<Coord>;

    /// The apple's cell, if there is an apple.
    open spec fn view(&self) -> Option<Coord> {
        if self.exists {
            Some(self.position)
        } else {
            None
        }
    }
}

impl Apple {
    /// Assembles an apple from its parts, unchecked.
    pub fn new(position: Coord, exists: bool) -> (apple: Apple)
        ensures
            apple.position == position,
            apple.exists == exists,
    {
        Apple { position, exists }
    }

    /// Tries `candidate` as the apple's cell: the apple appears there if the cell is
    /// free, and stays absent otherwise. The candidate is remembered either way.
    pub fn place_at(&mut self, candidate: Coord, snake: &Snake, game: &Game)
        ensures
            final(self).position == candidate,
            final(self).exists == (old(self).exists || is_free(candidate, game@.wall, snake@.body)),
            !old(self).exists ==> final(self)@ == (if is_free(candidate, game@.wall, snake@.body) {
                Some(candidate)
            } else {
                None::<Coord>
            }),
            !old(self).exists && final(self).exists && game.walled() ==> !on_border(
                final(self).position,
                game@.height,
                game@.width,
            ),
    {
        self.position = candidate;
        proof {
            lemma_occurs_from_start(snake.body@, candidate);
        }
        if !game.is_wall(self.position) && !contains_from(&snake.body, 0, self.position) {
            self.exists = true;
        }
    }

    /// One placement attempt on a uniformly drawn cell of the whole grid, border
    /// included. The apple appears only if the drawn cell is free; callers repeat
    /// the attempt while [`Apple::exists`] is false.
    pub fn spawn(&mut self, snake: &Snake, game: &Game, rng: &mut ThreadRng)
        requires
            0 < game.width <= i16::MAX,
            0 < game.height <= i16::MAX,
        ensures
            0 <= final(self).position.x < game.width,
            0 <= final(self).position.y < game.height,
            final(self).exists == (old(self).exists || is_free(
                final(self).position,
                game@.wall,
                snake@.body,
            )),
            !old(self).exists && final(self).exists && game.walled() ==> !on_border(
                final(self).position,
                game@.height,
                game@.width,
            ),
    {
        let x: i16 = random_below(rng, game.width as i16);
        let y: i16 = random_below(rng, game.height as i16);
        self.place_at(Coord { x, y }, snake, game);
    }
}

impl Default for Apple {
    /// No apple yet; the remembered cell is the grid's origin.
    fn default() -> (apple: Apple)
        ensures
            apple.position == (Coord { x: 0, y: 0 }),
            !apple.exists,
    {
        Apple::new(Coord { x: 0, y: 0 }, false)
    }
}

} // verus!
