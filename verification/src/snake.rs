//! The snake: an ordered chain of cells that slithers, grows and collides.

use crate::apple::Apple;
use crate::board::{inside_border, Game};
use crate::geometry::{contains_from, Coord, Direction};
use vstd::prelude::*;

verus! {

/// Fewest segments a snake can have.
pub const MIN_LENGTH: usize = 3;

/// The snake's body cells from head to tail, the cell its tail last left, and its heading.
#[derive(Clone, Debug)]
pub struct Snake {
    /// Segments from head (index 0) to tail (last index).
    pub body: Vec<Coord>,
    /// Copy of the first segment.
    pub head: Coord,
    /// Copy of the last segment.
    pub tail: Coord,
    /// The cell the tail vacated on the latest move; to be erased from the display.
    pub wake: Coord,
    /// Number of segments.
    pub length: usize,
    /// Current heading, or the exit value once quitting was requested.
    pub direction: Direction,
}

/// What the heading becomes when `request` arrives while heading `current`.
///
/// No request keeps the heading. A request for the exact reverse of the current
/// heading is dropped. Every other request, the exit value included, is taken.
pub open spec fn resolve_turn(current: Direction, request: Option<Direction>) -> Direction {
    match request {
        None => current,
        Some(wanted) => if wanted.is_heading() && wanted == current.opposite() {
            current
        } else {
            wanted
        },
    }
}

/// `head` lies in the first or last column or row of a `height` x `width` grid.
pub open spec fn touches_wall(head: Coord, height: int, width: int) -> bool {
    head.x == width - 1 || head.x == 0 || head.y == height - 1 || head.y == 0
}

/// Mathematical picture of a [`Snake`]: the chain itself, without the cached copies.
pub struct SnakeModel {
    pub body: Seq<Coord>,
    pub wake: Coord,
    pub direction: Direction,
}

impl SnakeModel {
    /// Long enough to have a head, a tail and something between.
    pub open spec fn wf(self) -> bool {
        self.body.len() >= MIN_LENGTH
    }

    pub open spec fn head(self) -> Coord {
        self.body[0]
    }

    pub open spec fn tail(self) -> Coord {
        self.body[self.body.len() - 1]
    }

    /// One move: a new head one step ahead is put in front and the tail cell is dropped.
    pub open spec fn slither(self) -> SnakeModel {
        SnakeModel {
            body: seq![self.head().step(self.direction)] + self.body.drop_last(),
            wake: self.tail(),
            direction: self.direction,
        }
    }

    /// One more segment: a copy of the tail is inserted just before the tail.
    pub open spec fn grow(self) -> SnakeModel {
        SnakeModel {
            body: self.body.insert(self.body.len() - 1, self.tail()),
            wake: self.wake,
            direction: self.direction,
        }
    }

    /// The heading after a request: a turn straight back is ignored, anything else is taken.
    pub open spec fn steer(self, request: Option<Direction>) -> SnakeModel {
        SnakeModel {
            body: self.body,
            wake: self.wake,
            direction: resolve_turn(self.direction, request),
        }
    }

    /// The head shares its cell with another segment.
    pub open spec fn bites_itself(self) -> bool {
        exists|i: int| 1 <= i < self.body.len() && self.body[i] == self.head()
    }
}

/// What always holds of moving, growing and colliding.
impl SnakeModel {
    /// Moving keeps the number of segments; growing adds exactly one. Both leave a
    /// well-formed snake.
    pub proof fn lemma_length(self)
        requires
            self.wf(),
        ensures
            self.slither().body.len() == self.body.len(),
            self.slither().wf(),
            self.grow().body.len() == self.body.len() + 1,
            self.grow().wf(),
    {
    }

    /// A move shifts the whole chain rigidly by one cell along its own path: the head
    /// advances by the heading's vector, every other segment takes the cell of the
    /// segment before it, the new tail is the old second-to-last segment, and the
    /// old tail cell becomes the wake.
    pub proof fn lemma_slither_shifts_chain(self)
        requires
            self.wf(),
            self.head().can_step(self.direction),
        ensures
            self.slither().head().x == self.head().x + self.direction.dx(),
            self.slither().head().y == self.head().y + self.direction.dy(),
            forall|i: int|
                1 <= i < self.body.len() ==> #[trigger] self.slither().body[i] == self.body[i - 1],
            self.slither().tail() == self.body[self.body.len() - 2],
            self.slither().wake == self.tail(),
            self.slither().direction == self.direction,
    {
    }

    /// A move is the same as taking the tail off a double-ended queue and putting
    /// the new head on its front.
    pub proof fn lemma_slither_is_pop_then_push(self)
        requires
            self.wf(),
        ensures
            self.slither().body == self.body.subrange(0, self.body.len() - 1).insert(
                0,
                self.head().step(self.direction),
            ),
    {
        assert(self.slither().body =~= self.body.subrange(0, self.body.len() - 1).insert(
            0,
            self.head().step(self.direction),
        ));
    }

    /// Growing doubles the tail at the end of the chain and touches nothing else:
    /// head, heading and wake stay, and every old segment keeps its index.
    pub proof fn lemma_grow_doubles_tail(self)
        requires
            self.wf(),
        ensures
            self.grow().body == self.body.push(self.tail()),
            self.grow().head() == self.head(),
            self.grow().tail() == self.tail(),
            self.grow().direction == self.direction,
            self.grow().wake == self.wake,
            forall|i: int| 0 <= i < self.body.len() ==> #[trigger] self.grow().body[i] == self.body[i],
    {
        assert(self.grow().body =~= self.body.push(self.tail()));
    }

    /// Growing does not change where the head goes next: the move after growing
    /// puts the head on the cell it would have reached without growing. The grown
    /// snake keeps its old tail cell through that move, so all its old cells trail
    /// the new head.
    pub proof fn lemma_grow_keeps_trajectory(self)
        requires
            self.wf(),
        ensures
            self.grow().slither().head() == self.slither().head(),
            self.grow().slither().body == seq![self.slither().head()] + self.body,
            self.grow().slither().tail() == self.tail(),
    {
        self.lemma_grow_doubles_tail();
        assert(self.grow().body.drop_last() =~= self.body);
        assert(self.grow().slither().body =~= seq![self.slither().head()] + self.body);
    }

    /// The head biting any other segment is a self-collision, whichever segment it is.
    pub proof fn lemma_bite_is_collision(self, i: int)
        requires
            1 <= i < self.body.len(),
            self.body[i] == self.head(),
        ensures
            self.bites_itself(),
    {
    }

    /// A snake that does not bite itself has its head and tail on different cells.
    pub proof fn lemma_unbitten_head_differs_from_tail(self)
        requires
            self.wf(),
            !self.bites_itself(),
        ensures
            self.head() != self.tail(),
    {
        if self.head() == self.tail() {
            self.lemma_bite_is_collision(self.body.len() - 1);
        }
    }
}

/// A turn straight back is dropped: asking for the reverse of the current heading
/// leaves the heading as it is.
pub proof fn lemma_reverse_is_rejected(current: Direction)
    requires
        current.is_heading(),
    ensures
        resolve_turn(current, Some(current.opposite())) == current,
{
}

/// Every request but the reverse of the current heading is taken as asked, and
/// without a request the heading stays.
pub proof fn lemma_other_turns_are_taken(current: Direction, wanted: Direction)
    requires
        !(wanted.is_heading() && wanted == current.opposite()),
    ensures
        resolve_turn(current, Some(wanted)) == wanted,
        resolve_turn(current, None) == current,
{
}

impl View for Snake {
    type V = SnakeModel;

    open spec fn view(&self) -> SnakeModel {
        SnakeModel { body: self.body@, wake: self.wake, direction: self.direction }
    }
}

impl Snake {
    /// The cached length, head and tail agree with the body, which has at least
    /// [`MIN_LENGTH`] segments.
    pub open spec fn wf(&self) -> bool {
        &&& self@.wf()
        &&& self.body@.len() == self.length
        &&& self.head == self@.head()
        &&& self.tail == self@.tail()
    }

    /// Run-time form of [`Snake::wf`], for callers that cannot prove it.
    pub fn is_well_formed(&self) -> (ok: bool)
        ensures
            ok == self.wf(),
    {
        if self.length < MIN_LENGTH || self.body.len() != self.length {
            return false;
        }
        let first = self.body[0];
        let last = self.body[self.length - 1];
        first == self.head && last == self.tail
    }

    /// Assembles a snake from its parts, unchecked.
    pub fn new(
        head: Coord,
        body: Vec<Coord>,
        tail: Coord,
        wake: Coord,
        length: usize,
        direction: Direction,
    ) -> (snake: Snake)
        ensures
            snake.head == head,
            snake.body == body,
            snake.tail == tail,
            snake.wake == wake,
            snake.length == length,
            snake.direction == direction,
    {
        Snake { head, body, tail, wake, length, direction }
    }

    /// The starting snake: three segments in a row, heading right, with the head a
    /// third of the way across and halfway down the board.
    pub fn spawn(game: &Game) -> (snake: Snake)
        requires
            game.width <= i16::MAX,
            game.height <= i16::MAX,
        ensures
            snake.wf(),
            snake.head == (Coord { x: (game.width / 3) as i16, y: (game.height / 2) as i16 }),
            snake.body@ == seq![
                snake.head,
                Coord { x: (snake.head.x - 1) as i16, y: snake.head.y },
                Coord { x: (snake.head.x - 2) as i16, y: snake.head.y },
            ],
            snake.wake == (Coord { x: (snake.head.x - 3) as i16, y: snake.head.y }),
            snake.direction == Direction::Right,
            game.valid_size() ==> inside_border(snake.head, game@.height, game@.width),
    {
        let head = Coord { x: game.width as i16 / 3, y: game.height as i16 / 2 };
        let tail = Coord { x: head.x - 2, y: head.y };
        let wake = Coord { x: head.x - 3, y: head.y };
        let mut body: Vec<Coord> = Vec::new();
        body.push(head);
        body.push(Coord { x: head.x - 1, y: head.y });
        body.push(tail);
        let length: usize = 3;
        let direction = Direction::Right;
        Snake::new(head, body, tail, wake, length, direction)
    }

    /// Whether the head is on the apple's cell.
    pub fn ate(&self, apple: &mut Apple) -> (eaten: bool)
        ensures
            eaten == (self.head == old(apple).position),
            *final(apple) == *old(apple),
    {
        self.head.x == apple.position.x && self.head.y == apple.position.y
    }

    /// Adds a segment by doubling the tail; the tail stays where it is.
    pub fn grow(&mut self)
        requires
            old(self).wf(),
            old(self).length < usize::MAX,
        ensures
            final(self).wf(),
            final(self)@ == old(self)@.grow(),
            final(self).length == old(self).length + 1,
            final(self).head == old(self).head,
            final(self).tail == old(self).tail,
    {
        self.body.insert(self.length - 1, Coord { x: self.tail.x, y: self.tail.y });
        self.length += 1;
    }

    /// Moves the whole chain one cell along its heading: every segment takes the
    /// place of the one before it and the head steps forward.
    pub fn slither(&mut self)
        requires
            old(self).wf(),
            old(self).direction.is_heading(),
            old(self).head.can_step(old(self).direction),
        ensures
            final(self).wf(),
            final(self)@ == old(self)@.slither(),
            final(self).length == old(self).length,
            final(self).head.x == old(self).head.x + old(self).direction.dx(),
            final(self).head.y == old(self).head.y + old(self).direction.dy(),
            forall|i: int|
                1 <= i < old(self).length ==> final(self).body@[i] == old(self).body@[i - 1],
            final(self).tail == old(self).body@[old(self).length - 2],
            final(self).wake == old(self).tail,
    {
        self.wake = Coord { x: self.tail.x, y: self.tail.y };
        self.tail = self.body[self.length - 2];
        let mut i: usize = self.length - 2;
        while i >= 1
            invariant
                i <= self.length - 2,
                self.length == old(self).length,
                self.length >= MIN_LENGTH,
                self.body@.len() == self.length,
                self.head == old(self).head,
                self.direction == old(self).direction,
                self.wake == old(self).tail,
                self.tail == old(self).body@[self.length - 2],
                forall|k: int| 0 <= k <= i ==> self.body@[k] == old(self).body@[k],
                forall|k: int| i < k <= self.length - 2 ==> self.body@[k] == old(self).body@[k - 1],
                self.body@[self.length - 1] == old(self).body@[self.length - 1],
            decreases i,
        {
            let ahead = self.body[i - 1];
            self.body[i] = ahead;
            i -= 1;
        }
        self.body[1] = Coord { x: self.head.x, y: self.head.y };
        self.head = self.head.stepped(self.direction);
        let last: usize = self.length - 1;
        self.body[last] = self.tail;
        self.body[0] = self.head;
        assert(self.body@ =~= old(self)@.slither().body);
    }

    /// Whether the head sits on another segment of the body.
    pub fn collided_with_self(&self) -> (hit: bool)
        requires
            self.wf(),
        ensures
            hit == self@.bites_itself(),
    {
        contains_from(&self.body, 1, self.head)
    }

    /// Whether the head has reached the first or last column or row of the board.
    pub fn collided_with_wall(&self, game: &Game) -> (hit: bool)
        requires
            game.width <= i16::MAX,
            game.height <= i16::MAX,
        ensures
            hit == touches_wall(self.head, game@.height, game@.width),
    {
        if self.head.x == game.width as i16 - 1 {
            return true;
        } else if self.head.x == 0 {
            return true;
        } else if self.head.y == game.height as i16 - 1 {
            return true;
        } else if self.head.y == 0 {
            return true;
        }
        false
    }

    /// Takes a steering request: the heading changes unless the request points
    /// straight back; the exit value always replaces the heading.
    pub fn steer(&mut self, request: Option<Direction>)
        ensures
            final(self)@ == old(self)@.steer(request),
            final(self).direction == resolve_turn(old(self).direction, request),
            final(self).body == old(self).body,
            final(self).head == old(self).head,
            final(self).tail == old(self).tail,
            final(self).length == old(self).length,
    {
        match request {
            None => {},
            Some(wanted) => {
                if wanted == Direction::Exit || wanted != self.direction.reversed() {
                    self.direction = wanted;
                }
            },
        }
    }
}

} // verus!
