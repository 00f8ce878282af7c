//! Grid coordinates and headings.

use vstd::prelude::*;

verus! {

/// Where the snake is heading, or the reserved value that asks the game to stop.
///
/// Screen rows grow downwards, so `Up` is the vector `(0, -1)`.
#[derive(Clone, Copy, Debug, PartialEq, Eq, Structural)]
pub enum Direction {
    Up,
    Right,
    Down,
    Left,
    /// Out-of-band quit request; never a movement.
    Exit,
}

impl Direction {
    /// True for the four movement vectors, false for the exit value.
    pub open spec fn is_heading(self) -> bool {
        self != Direction::Exit
    }

    /// Horizontal component of the movement vector.
    pub open spec fn dx(self) -> int {
        match self {
            Direction::Right => 1,
            Direction::Left => -1,
            _ => 0,
        }
    }

    /// Vertical component of the movement vector.
    pub open spec fn dy(self) -> int {
        match self {
            Direction::Down => 1,
            Direction::Up => -1,
            _ => 0,
        }
    }

    /// The heading that points the other way; the exit value has none and maps to itself.
    pub open spec fn opposite(self) -> Direction {
        match self {
            Direction::Up => Direction::Down,
            Direction::Right => Direction::Left,
            Direction::Down => Direction::Up,
            Direction::Left => Direction::Right,
            Direction::Exit => Direction::Exit,
        }
    }

    /// Executable form of [`Direction::opposite`].
    pub fn reversed(self) -> (r: Direction)
        ensures
            r == self.opposite(),
    {
        match self {
            Direction::Up => Direction::Down,
            Direction::Right => Direction::Left,
            Direction::Down => Direction::Up,
            Direction::Left => Direction::Right,
            Direction::Exit => Direction::Exit,
        }
    }

    /// Reversing a heading negates its vector, and reversing twice gives it back.
    pub proof fn lemma_opposite_negates(self)
        ensures
            self.opposite().opposite() == self,
            self.opposite().dx() == -self.dx(),
            self.opposite().dy() == -self.dy(),
            self.is_heading() ==> self.opposite() != self,
            self.is_heading() <==> self.opposite().is_heading(),
    {
    }

    /// Every heading is a unit vector along one axis.
    pub proof fn lemma_heading_is_unit(self)
        requires
            self.is_heading(),
        ensures
            (self.dx() == 0 && (self.dy() == 1 || self.dy() == -1)) || (self.dy() == 0 && (
            self.dx() == 1 || self.dx() == -1)),
    {
    }
}

/// One cell of the grid: column `x`, row `y`.
#[derive(Clone, Copy, Debug, PartialEq, Eq, Structural)]
pub struct Coord {
    pub x: i16,
    pub y: i16,
}

impl Coord {
    /// Whether the neighbour in direction `d` is still representable.
    pub open spec fn can_step(self, d: Direction) -> bool {
        &&& i16::MIN <= self.x + d.dx() <= i16::MAX
        &&& i16::MIN <= self.y + d.dy() <= i16::MAX
    }

    /// The cell one step away in direction `d` (vector addition).
    pub open spec fn step(self, d: Direction) -> Coord {
        Coord { x: (self.x + d.dx()) as i16, y: (self.y + d.dy()) as i16 }
    }

    pub fn new(x: i16, y: i16) -> (c: Coord)
        ensures
            c == (Coord { x, y }),
    {
        Coord { x, y }
    }

    /// Moves one cell in direction `d`.
    pub fn stepped(self, d: Direction) -> (c: Coord)
        requires
            d.is_heading(),
            self.can_step(d),
        ensures
            c == self.step(d),
            c.x == self.x + d.dx(),
            c.y == self.y + d.dy(),
    {
        match d {
            Direction::Up => Coord { x: self.x, y: self.y - 1 },
            Direction::Right => Coord { x: self.x + 1, y: self.y },
            Direction::Down => Coord { x: self.x, y: self.y + 1 },
            Direction::Left => Coord { x: self.x - 1, y: self.y },
            Direction::Exit => self,
        }
    }
}

/// Whether `cell` occurs in `cells` at index `from` or later.
pub open spec fn occurs_from(cells: Seq<Coord>, from: int, cell: Coord) -> bool {
    exists|i: int| from <= i < cells.len() && cells[i] == cell
}

/// Linear search for `cell` in `cells[from..]`.
pub fn contains_from(cells: &Vec<Coord>, from: usize, cell: Coord) -> (found: bool)
    ensures
        found == occurs_from(cells@, from as int, cell),
{
    let mut i: usize = from;
    while i < cells.len()
        invariant
            from <= i,
            forall|k: int| from <= k < i && k < cells.len() ==> cells@[k] != cell,
        decreases cells.len() - i,
    {
        if cells[i] == cell {
            return true;
        }
        i += 1;
    }
    false
}

/// Searching from the start is plain membership.
pub proof fn lemma_occurs_from_start(cells: Seq<Coord>, cell: Coord)
    ensures
        occurs_from(cells, 0, cell) == cells.contains(cell),
{
    if cells.contains(cell) {
        let i = choose|i: int| 0 <= i < cells.len() && cells[i] == cell;
        assert(0 <= i < cells.len() && cells[i] == cell);
    }
}

} // verus!
