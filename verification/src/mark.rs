use vstd::prelude::*;

verus! {

/// What a cell of the board holds: one of the two players' marks, or the
/// empty-cell sentinel `NA`.
#[derive(Clone, Copy, Debug, PartialEq, Eq, Hash, Structural)]
pub enum Player {
    X,
    Y,
    NA,
}

/// The two recoverable failures of the game: a coordinate beyond the 3x3
/// grid, and a placement onto a cell that is already taken.
#[derive(Clone, Copy, Debug, PartialEq, Eq, Structural)]
pub enum GameError {
    OutOfBounds,
    OccupiedCell,
}

/// The display glyph of a mark: 'X', 'Y', or a space for an empty cell.
pub open spec fn glyph_of(p: Player) -> char {
    match p {
        Player::X => 'X',
        Player::Y => 'Y',
        Player::NA => ' ',
    }
}

impl Player {
    /// The glyph this mark renders as.
    pub fn glyph(self) -> (c: char)
        ensures
            c == glyph_of(self),
    {
        match self {
            Player::X => 'X',
            Player::Y => 'Y',
            Player::NA => ' ',
        }
    }

    /// Reads a glyph back into a mark; any glyph but 'X' and 'Y' means an
    /// empty cell.
    pub fn from_glyph(c: char) -> (p: Player)
        ensures
            p == (if c == 'X' {
                Player::X
            } else if c == 'Y' {
                Player::Y
            } else {
                Player::NA
            }),
    {
        if c == 'X' {
            Player::X
        } else if c == 'Y' {
            Player::Y
        } else {
            Player::NA
        }
    }
}

} // verus!
