use crate::mark::GameError;
use crate::rng::sample_below;
use vstd::prelude::*;

verus! {

/// A validated cell address on the 3x3 board: `x` is the column, `y` the
/// row, each at most 2.
#[derive(Clone, Copy, Debug, PartialEq, Eq, Structural)]
pub struct Point {
    pub x: u8,
    pub y: u8,
}

impl Point {
    /// Both coordinates lie on the board.
    pub open spec fn wf(self) -> bool {
        self.x <= 2 && self.y <= 2
    }

    /// The cell this point addresses, as an index into the row-major grid.
    pub open spec fn flat(self) -> int {
        self.y as int * 3 + self.x as int
    }

    /// Builds a point, rejecting any coordinate beyond the 3x3 grid.
    pub fn new(x: u8, y: u8) -> (r: Result<Point, GameError>)
        ensures
            x <= 2 && y <= 2 ==> (r matches Ok(p) && p.x == x && p.y == y),
            x > 2 || y > 2 ==> (r matches Err(e) && e == GameError::OutOfBounds),
    {
        if x > 2 || y > 2 {
            return Err(GameError::OutOfBounds);
        }
        Ok(Point { x, y })
    }

    /// Draws a random point. Each axis is sampled from {0, 1} alone: the
    /// random source never produces coordinate 2, a deliberately kept
    /// limitation of the opponent's move generator.
    pub fn random() -> (p: Point)
        ensures
            p.wf(),
            p.x < 2,
            p.y < 2,
    {
        let x = sample_below(2);
        let y = sample_below(2);
        Point { x, y }
    }
}

} // verus!
