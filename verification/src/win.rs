use crate::board::Board;
use crate::mark::Player;
use vstd::prelude::*;

verus! {

/// The row-major index of cell `k` of winning line `l`. The eight lines come
/// in their fixed scanning order: the three rows top to bottom, the three
/// columns left to right, the main diagonal, then the anti-diagonal.
pub open spec fn line_cell(l: int, k: int) -> int
    recommends
        0 <= l < 8,
        0 <= k < 3,
{
    if l == 0 {
        k
    } else if l == 1 {
        3 + k
    } else if l == 2 {
        6 + k
    } else if l == 3 {
        3 * k
    } else if l == 4 {
        1 + 3 * k
    } else if l == 5 {
        2 + 3 * k
    } else if l == 6 {
        4 * k
    } else {
        6 - 2 * k
    }
}

/// Line `l` is won: its three cells agree and are not empty.
pub open spec fn line_won(b: Seq<Player>, l: int) -> bool {
    &&& b[line_cell(l, 0)] != Player::NA
    &&& b[line_cell(l, 0)] == b[line_cell(l, 1)]
    &&& b[line_cell(l, 1)] == b[line_cell(l, 2)]
}

/// The winner found by scanning lines `l..8` in the fixed order: the mark of
/// the first won line, or `None` when no line of that range is won.
pub open spec fn winner_from(b: Seq<Player>, l: int) -> Option<Player>
    decreases 8 - l,
{
    if l < 0 || l >= 8 {
        None
    } else if line_won(b, l) {
        Some(b[line_cell(l, 0)])
    } else {
        winner_from(b, l + 1)
    }
}

/// The board's winner: the mark of the first won line in the fixed scanning
/// order, or `None` when no line is won.
pub open spec fn spec_winner(b: Seq<Player>) -> Option<Player> {
    winner_from(b, 0)
}

/// The three cell indices of winning line `l`.
fn line_cells(l: usize) -> (t: (usize, usize, usize))
    requires
        l < 8,
    ensures
        t.0 == line_cell(l as int, 0),
        t.1 == line_cell(l as int, 1),
        t.2 == line_cell(l as int, 2),
{
    match l {
        0 => (0, 1, 2),
        1 => (3, 4, 5),
        2 => (6, 7, 8),
        3 => (0, 3, 6),
        4 => (1, 4, 7),
        5 => (2, 5, 8),
        6 => (0, 4, 8),
        _ => (6, 4, 2),
    }
}

/// Scans the eight winning lines in the fixed order and reports the mark of
/// the first line whose three cells agree and are not empty, or `None` when
/// no line qualifies.
pub fn find_winner(board: &Board) -> (r: Option<Player>)
    requires
        board.wf(),
    ensures
        r == spec_winner(board@),
{
    let mut l: usize = 0;
    while l < 8
        invariant
            l <= 8,
            board.wf(),
            winner_from(board@, 0) == winner_from(board@, l as int),
        decreases 8 - l,
    {
        let (a, b, c) = line_cells(l);
        let va = board.cell(a);
        let vb = board.cell(b);
        let vc = board.cell(c);
        if va != Player::NA && va == vb && vb == vc {
            return Some(va);
        }
        l = l + 1;
    }
    None
}

/// Scanning from `l`, a range with no won line yields no winner.
proof fn lemma_none_from(b: Seq<Player>, l: int)
    requires
        0 <= l <= 8,
        forall|j: int| l <= j < 8 ==> !line_won(b, j),
    ensures
        winner_from(b, l) is None,
    decreases 8 - l,
{
    if l < 8 {
        lemma_none_from(b, l + 1);
    }
}

/// A board with no line fully occupied by one non-empty mark has no winner.
pub proof fn lemma_no_won_line_no_winner(b: Seq<Player>)
    requires
        forall|l: int| 0 <= l < 8 ==> !line_won(b, l),
    ensures
        spec_winner(b) is None,
{
    lemma_none_from(b, 0);
}

/// The empty board has no winner.
pub proof fn lemma_empty_board_no_winner(b: Seq<Player>)
    requires
        b.len() == 9,
        forall|i: int| 0 <= i < 9 ==> b[i] == Player::NA,
    ensures
        spec_winner(b) is None,
{
    assert forall|l: int| 0 <= l < 8 implies !line_won(b, l) by {
        assert(0 <= line_cell(l, 0) < 9);
        assert(b[line_cell(l, 0)] == Player::NA);
    }
    lemma_no_won_line_no_winner(b);
}

} // verus!
