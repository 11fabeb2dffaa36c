use crate::board::{opponent_reach, opponent_turn, play_turn, Board};
use crate::mark::Player;
use crate::point::Point;
use crate::win::{find_winner, spec_winner};
use vstd::prelude::*;

verus! {

/// What a turn cycle ends in: the game goes on, or a player has won and the
/// game is over.
#[derive(Clone, Copy, Debug, PartialEq, Eq, Structural)]
pub enum TurnOutcome {
    Continue,
    GameWon(Player),
}

/// The grid after the human's attempted move at column `x`, row `y`: marked
/// with `X` when the coordinates lie on the board and the cell is free, and
/// untouched otherwise — an out-of-bounds or taken cell silently costs the
/// human the move.
pub open spec fn human_applied(b: Seq<Player>, x: u8, y: u8) -> Seq<Player> {
    if x <= 2 && y <= 2 && b[y as int * 3 + x as int] == Player::NA {
        b.update(y as int * 3 + x as int, Player::X)
    } else {
        b
    }
}

/// One full turn cycle of the game: the human's attempted move at the raw
/// coordinates `(x, y)`, a win check, and — while the game is still open —
/// the opponent's random move followed by a second win check.
///
/// The outcome mirrors the final grid exactly: `GameWon(w)` when the first
/// won line of the fixed scanning order belongs to `w`, `Continue` when no
/// line is won. When the human's move already decides the game the opponent
/// does not move at all; otherwise the opponent marks one random free cell
/// within its reach, or none when its whole reach is taken.
pub fn turn_cycle(board: &mut Board, x: u8, y: u8) -> (r: TurnOutcome)
    requires
        old(board).wf(),
    ensures
        final(board).wf(),
        r == (match spec_winner(final(board)@) {
            Option::Some(w) => TurnOutcome::GameWon(w),
            Option::None => TurnOutcome::Continue,
        }),
        spec_winner(human_applied(old(board)@, x, y)) is Some
            ==> final(board)@ == human_applied(old(board)@, x, y),
        spec_winner(human_applied(old(board)@, x, y)) is None ==> {
            ||| exists|i: int|
                opponent_reach(i) && human_applied(old(board)@, x, y)[i] == Player::NA
                    && final(board)@ == human_applied(old(board)@, x, y).update(i, Player::Y)
            ||| (forall|i: int|
                opponent_reach(i) ==> human_applied(old(board)@, x, y)[i] != Player::NA)
                    && final(board)@ == human_applied(old(board)@, x, y)
        },
{
    if let Ok(point) = Point::new(x, y) {
        let _ = play_turn(board, &point, Player::X);
    }
    if let Some(w) = find_winner(board) {
        return TurnOutcome::GameWon(w);
    }
    let _ = opponent_turn(board);
    match find_winner(board) {
        Some(w) => TurnOutcome::GameWon(w),
        None => TurnOutcome::Continue,
    }
}

} // verus!
