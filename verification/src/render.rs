//! What a frame shows: the strokes that repaint the snake and where the score line goes.
//!
//! Nothing here touches a terminal. The caller walks the returned plan and paints.

use crate::board::Game;
use crate::geometry::Coord;
use crate::snake::{Snake, SnakeModel};
use vstd::prelude::*;

verus! {

/// How a cell is painted.
#[derive(Clone, Copy, Debug, PartialEq, Eq, Structural)]
pub enum Paint {
    /// A green snake segment.
    Green,
    /// A cyan snake segment.
    Cyan,
    /// An empty cell.
    Blank,
}

/// One cell to repaint.
#[derive(Clone, Copy, Debug, PartialEq, Eq, Structural)]
pub struct Stroke {
    pub at: Coord,
    pub paint: Paint,
}

/// Segments alternate colours along the body, starting green at the head.
pub open spec fn segment_paint(index: int) -> Paint {
    if index % 2 == 0 {
        Paint::Green
    } else {
        Paint::Cyan
    }
}

impl SnakeModel {
    /// The strokes that bring the display up to date after a move: every segment
    /// from head to tail in its colour, then the wake blanked.
    pub open spec fn strokes(self) -> Seq<Stroke> {
        Seq::new(
            self.body.len() + 1,
            |i: int|
                if i < self.body.len() {
                    Stroke { at: self.body[i], paint: segment_paint(i) }
                } else {
                    Stroke { at: self.wake, paint: Paint::Blank }
                },
        )
    }
}

impl Snake {
    /// Plans the repaint of the snake. The wake comes last, so where it coincides
    /// with a segment the cell ends up blank.
    pub fn draw(&self) -> (plan: Vec<Stroke>)
        requires
            self.wf(),
        ensures
            plan@ == self@.strokes(),
    {
        let mut plan: Vec<Stroke> = Vec::new();
        plan.push(Stroke { at: self.head, paint: Paint::Green });
        let mut i: usize = 1;
        while i < self.length - 1
            invariant
                self.wf(),
                1 <= i <= self.length - 1,
                plan@.len() == i,
                forall|k: int| 0 <= k < i ==> plan@[k] == self@.strokes()[k],
            decreases self.length - i,
        {
            let paint = if i % 2 == 0 {
                Paint::Green
            } else {
                Paint::Cyan
            };
            plan.push(Stroke { at: self.body[i], paint });
            i += 1;
        }
        let paint = if self.length % 2 == 0 {
            Paint::Cyan
        } else {
            Paint::Green
        };
        plan.push(Stroke { at: self.tail, paint });
        plan.push(Stroke { at: self.wake, paint: Paint::Blank });
        plan
    }
}

/// Where the line below the grid puts its two texts.
#[derive(Clone, Copy, Debug, PartialEq, Eq, Structural)]
pub struct ScoreLine {
    /// Screen row of the line: the first row below the grid.
    pub row: u16,
    /// Column where the score starts.
    pub score_column: u16,
    /// Column where the control hint starts, so that it ends at the grid's right edge.
    pub hint_column: u16,
}

/// Number of characters in the control hint.
pub const CONTROL_HINT_WIDTH: u16 = 25;

/// The control hint shown next to the score.
pub fn control_hint() -> (hint: &'static str)
    ensures
        hint@ == "WASD to move, ESC to exit"@,
        hint@.len() == CONTROL_HINT_WIDTH,
{
    proof {
        reveal_strlit("WASD to move, ESC to exit");
    }
    "WASD to move, ESC to exit"
}

impl Game {
    /// Lays out the line below the grid: the score at the left edge, the control
    /// hint flush with the right edge. A grid narrower than the hint has no room
    /// for it, and no layout.
    pub fn score_line(&self) -> (line: Option<ScoreLine>)
        ensures
            self.width < CONTROL_HINT_WIDTH <==> line is None,
            line matches Some(l) ==> l.row == self.height && l.score_column == 0 && l.hint_column
                == self.width - CONTROL_HINT_WIDTH,
    {
        if self.width < CONTROL_HINT_WIDTH {
            None
        } else {
            Some(
                ScoreLine {
                    row: self.height,
                    score_column: 0,
                    hint_column: self.width - CONTROL_HINT_WIDTH,
                },
            )
        }
    }
}

} // verus!
