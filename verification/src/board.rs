//! The board: grid size, border cells, score.

use crate::geometry::{contains_from, lemma_occurs_from_start, Coord};
use vstd::prelude::*;

verus! {

/// Smallest side a board may have.
pub const MIN_SIDE: u16 = 5;

/// Length of one tick's input wait on a default board, in milliseconds.
pub const DEFAULT_POLLING_MILLIS: u64 = 100;

/// Why a requested board size is refused.
#[derive(Clone, Copy, Debug, PartialEq, Eq, Structural)]
pub enum ConfigError {
    /// A side is shorter than [`MIN_SIDE`].
    TooSmall,
    /// A side does not fit the signed 16-bit coordinates.
    TooLarge,
}

/// `cell` lies on the outermost ring of a `height` x `width` grid.
pub open spec fn on_border(cell: Coord, height: int, width: int) -> bool {
    &&& 0 <= cell.x < width
    &&& 0 <= cell.y < height
    &&& (cell.x == 0 || cell.x == width - 1 || cell.y == 0 || cell.y == height - 1)
}

/// `cell` lies in a `height` x `width` grid, border included.
pub open spec fn in_grid(cell: Coord, height: int, width: int) -> bool {
    0 <= cell.x < width && 0 <= cell.y < height
}

/// `cell` lies in a `height` x `width` grid and off its border.
pub open spec fn inside_border(cell: Coord, height: int, width: int) -> bool {
    0 < cell.x < width - 1 && 0 < cell.y < height - 1
}

/// The border of a `height` x `width` grid as a set of cells.
pub open spec fn perimeter(height: int, width: int) -> Set<Coord> {
    Set::new(|cell: Coord| on_border(cell, height, width))
}

/// Row-major order on cells: by row first, then by column.
pub open spec fn row_major_before(a: Coord, b: Coord) -> bool {
    a.y < b.y || (a.y == b.y && a.x < b.x)
}

/// `cells` is strictly increasing in row-major order.
pub open spec fn row_major_sorted(cells: Seq<Coord>) -> bool {
    forall|i: int, j: int|
        0 <= i < j < cells.len() ==> row_major_before(#[trigger] cells[i], #[trigger] cells[j])
}

/// Board dimensions, border cells, score and tick length.
#[derive(Clone, Debug)]
pub struct Game {
    /// Rows of the grid, border included.
    pub height: u16,
    /// Columns of the grid, border included.
    pub width: u16,
    /// The border cells.
    pub wall: Vec<Coord>,
    /// Apples eaten so far.
    pub score: u16,
    /// How long one tick waits for input, in milliseconds.
    pub polling_millis: u64,
}

/// Mathematical picture of a [`Game`].
pub struct Board {
    pub height: int,
    pub width: int,
    pub wall: Set<Coord>,
    pub score: nat,
    pub polling_millis: nat,
}

impl View for Game {
    type V = Board;

    open spec fn view(&self) -> Board {
        Board {
            height: self.height as int,
            width: self.width as int,
            wall: self.wall@.to_set(),
            score: self.score as nat,
            polling_millis: self.polling_millis as nat,
        }
    }
}

impl Game {
    /// Both sides are at least [`MIN_SIDE`] and fit signed 16-bit coordinates.
    pub open spec fn valid_size(&self) -> bool {
        &&& MIN_SIDE <= self.height <= i16::MAX
        &&& MIN_SIDE <= self.width <= i16::MAX
    }

    /// The wall is exactly the border of the grid.
    pub open spec fn walled(&self) -> bool {
        self@.wall == perimeter(self@.height, self@.width)
    }

    /// A board the game can be played on.
    pub open spec fn wf(&self) -> bool {
        self.valid_size() && self.walled()
    }

    /// Run-time form of [`Game::valid_size`], for callers that cannot prove it.
    pub fn has_valid_size(&self) -> (ok: bool)
        ensures
            ok == self.valid_size(),
    {
        MIN_SIDE <= self.height && self.height <= i16::MAX as u16 && MIN_SIDE <= self.width
            && self.width <= i16::MAX as u16
    }

    /// Assembles a game from its parts, unchecked.
    pub fn new(height: u16, width: u16, wall: Vec<Coord>, score: u16, polling_millis: u64) -> (game:
        Game)
        ensures
            game.height == height,
            game.width == width,
            game.wall == wall,
            game.score == score,
            game.polling_millis == polling_millis,
    {
        Game { height, width, wall, score, polling_millis }
    }

    /// Lists the border cells of a `height` x `width` grid, row by row.
    pub fn compute_walls(height: u16, width: u16) -> (wall: Vec<Coord>)
        requires
            height <= i16::MAX,
            width <= i16::MAX,
        ensures
            wall@.to_set() == perimeter(height as int, width as int),
            row_major_sorted(wall@),
            wall@.no_duplicates(),
    {
        let mut wall: Vec<Coord> = Vec::new();
        let mut y: u16 = 0;
        while y < height
            invariant
                y <= height <= i16::MAX,
                width <= i16::MAX,
                forall|c: Coord|
                    wall@.contains(c) <==> on_border(c, height as int, width as int) && c.y < y,
                row_major_sorted(wall@),
            decreases height - y,
        {
            let mut x: u16 = 0;
            while x < width
                invariant
                    y < height <= i16::MAX,
                    x <= width <= i16::MAX,
                    forall|c: Coord|
                        wall@.contains(c) <==> on_border(c, height as int, width as int) && (c.y < y
                            || (c.y == y && c.x < x)),
                    row_major_sorted(wall@),
                decreases width - x,
            {
                let ghost before = wall@;
                let ghost here = Coord { x: x as i16, y: y as i16 };
                if (y == 0 || y == height - 1) || (x == 0 || x == width - 1) {
                    let cell = Coord { x: x as i16, y: y as i16 };
                    wall.push(cell);
                    proof {
                        lemma_push_contains(before, cell);
                        assert(on_border(cell, height as int, width as int));
                        assert forall|i: int, j: int| 0 <= i < j < wall@.len() implies row_major_before(
                            #[trigger] wall@[i],
                            #[trigger] wall@[j],
                        ) by {
                            if j == before.len() {
                                assert(before.contains(before[i]));
                            } else {
                                assert(wall@[i] == before[i] && wall@[j] == before[j]);
                            }
                        }
                    }
                }
                proof {
                    assert forall|c: Coord|
                        wall@.contains(c) <==> on_border(c, height as int, width as int) && (c.y < y
                            || (c.y == y && c.x < x + 1)) by {
                        assert(wall@.contains(c) <==> before.contains(c) || (c == here
                            && wall@.len() > before.len()));
                        assert(c.y == y && c.x == x ==> c == here);
                    }
                }
                x += 1;
            }
            y += 1;
        }
        proof {
            assert(wall@.to_set() =~= perimeter(height as int, width as int));
            lemma_sorted_no_duplicates(wall@);
        }
        wall
    }

    /// Builds a playable board with its wall in place and nothing scored, or says
    /// why the size is refused. A side that is too short is reported before one
    /// that is too long.
    pub fn with_size(height: u16, width: u16, polling_millis: u64) -> (made: Result<
        Game,
        ConfigError,
    >)
        ensures
            made is Ok <==> MIN_SIDE <= height <= i16::MAX && MIN_SIDE <= width <= i16::MAX,
            made matches Err(refusal) ==> refusal == (if height < MIN_SIDE || width < MIN_SIDE {
                ConfigError::TooSmall
            } else {
                ConfigError::TooLarge
            }),
            made matches Ok(game) ==> {
                &&& game.wf()
                &&& game.height == height
                &&& game.width == width
                &&& game.score == 0
                &&& game.polling_millis == polling_millis
                &&& row_major_sorted(game.wall@)
                &&& game.wall@.no_duplicates()
            },
    {
        if height < MIN_SIDE || width < MIN_SIDE {
            Err(ConfigError::TooSmall)
        } else if height > i16::MAX as u16 || width > i16::MAX as u16 {
            Err(ConfigError::TooLarge)
        } else {
            Ok(Game::new(height, width, Game::compute_walls(height, width), 0, polling_millis))
        }
    }

    /// Whether `cell` is one of the wall cells.
    pub fn is_wall(&self, cell: Coord) -> (hit: bool)
        ensures
            hit == self@.wall.contains(cell),
            self.walled() ==> hit == on_border(cell, self@.height, self@.width),
    {
        proof {
            lemma_occurs_from_start(self.wall@, cell);
            assert(self@.wall.contains(cell) == self.wall@.contains(cell));
            assert(perimeter(self@.height, self@.width).contains(cell) == on_border(
                cell,
                self@.height,
                self@.width,
            ));
        }
        contains_from(&self.wall, 0, cell)
    }

    /// Counts one more apple.
    pub fn increase_score(&mut self)
        requires
            old(self).score < u16::MAX,
        ensures
            final(self).score == old(self).score + 1,
            final(self).height == old(self).height,
            final(self).width == old(self).width,
            final(self).wall == old(self).wall,
            final(self).polling_millis == old(self).polling_millis,
    {
        self.score += 1;
    }
}

impl Default for Game {
    /// The standard board: 15 rows, 40 columns, nothing scored, 100 ms per tick.
    fn default() -> (game: Game)
        ensures
            game.wf(),
            game.height == 15,
            game.width == 40,
            game.score == 0,
            game.polling_millis == DEFAULT_POLLING_MILLIS,
            row_major_sorted(game.wall@),
            game.wall@.no_duplicates(),
    {
        Game::new(15, 40, Game::compute_walls(15, 40), 0, DEFAULT_POLLING_MILLIS)
    }
}

/// Appending `cell` adds exactly that cell to what a sequence contains.
pub proof fn lemma_push_contains(cells: Seq<Coord>, cell: Coord)
    ensures
        forall|c: Coord| cells.push(cell).contains(c) <==> cells.contains(c) || c == cell,
{
    let after = cells.push(cell);
    assert forall|c: Coord| after.contains(c) <==> cells.contains(c) || c == cell by {
        if after.contains(c) {
            let i = choose|i: int| 0 <= i < after.len() && after[i] == c;
            if i < cells.len() {
                assert(cells[i] == c);
            }
        }
        if cells.contains(c) {
            let i = choose|i: int| 0 <= i < cells.len() && cells[i] == c;
            assert(after[i] == c);
        }
        if c == cell {
            assert(after[cells.len() as int] == c);
        }
    }
}

/// A strictly increasing sequence holds no cell twice.
pub proof fn lemma_sorted_no_duplicates(cells: Seq<Coord>)
    requires
        row_major_sorted(cells),
    ensures
        cells.no_duplicates(),
{
    assert forall|i: int, j: int| 0 <= i < cells.len() && 0 <= j < cells.len() && i != j implies cells[i]
        != cells[j] by {
        if i < j {
            assert(row_major_before(cells[i], cells[j]));
        } else {
            assert(row_major_before(cells[j], cells[i]));
        }
    }
}

} // verus!
