use crate::mark::{glyph_of, GameError, Player};
use crate::point::Point;
use crate::rng::sample_below;
use vstd::prelude::*;

verus! {

/// The 3x3 grid, stored row-major: the cell at row `y`, column `x` is entry
/// `y * 3 + x`. Every cell always holds one of the three `Player` values; a
/// fresh board is all `NA`.
pub struct Board {
    cells: Vec<Player>,
}

impl View for Board {
    type V = Seq<Player>;

    closed spec fn view(&self) -> Seq<Player> {
        self.cells@
    }
}

/// The grid as display glyphs, cell by cell.
pub open spec fn spec_snapshot(b: Seq<Player>) -> Seq<char> {
    Seq::new(b.len(), |i: int| glyph_of(b[i]))
}

/// The cells that the opponent's random source can address: rows 0 and 1,
/// columns 0 and 1, as row-major indices.
pub open spec fn opponent_reach(i: int) -> bool {
    i == 0 || i == 1 || i == 3 || i == 4
}

impl Board {
    /// The grid has exactly its nine cells.
    pub open spec fn wf(&self) -> bool {
        self@.len() == 9
    }

    /// A fresh board: every cell empty.
    pub fn new() -> (b: Board)
        ensures
            b.wf(),
            forall|i: int| 0 <= i < 9 ==> b@[i] == Player::NA,
    {
        let mut cells: Vec<Player> = Vec::new();
        let mut i: usize = 0;
        while i < 9
            invariant
                i <= 9,
                cells@.len() == i,
                forall|j: int| 0 <= j < i ==> cells@[j] == Player::NA,
            decreases 9 - i,
        {
            cells.push(Player::NA);
            i = i + 1;
        }
        Board { cells }
    }

    /// The mark at a row-major cell index.
    pub fn cell(&self, i: usize) -> (m: Player)
        requires
            self.wf(),
            i < 9,
        ensures
            m == self@[i as int],
    {
        self.cells[i]
    }

    /// A read-only copy of the grid as display glyphs, row-major, for the
    /// display sink. The board is not touched.
    pub fn render_snapshot(&self) -> (r: Vec<char>)
        requires
            self.wf(),
        ensures
            r@ == spec_snapshot(self@),
    {
        let mut out: Vec<char> = Vec::new();
        let mut i: usize = 0;
        while i < 9
            invariant
                i <= 9,
                self.wf(),
                out@.len() == i,
                forall|j: int| 0 <= j < i ==> out@[j] == glyph_of(self@[j]),
            decreases 9 - i,
        {
            out.push(self.cells[i].glyph());
            i = i + 1;
        }
        out
    }
}

/// Places `player`'s mark at `point`. Succeeds exactly when the cell is
/// still empty; a placement onto a taken cell is refused with `OccupiedCell`
/// and leaves the board as it was.
pub fn play_turn(board: &mut Board, point: &Point, player: Player) -> (r: Result<
    (),
    GameError,
>)
    requires
        old(board).wf(),
        point.wf(),
        player != Player::NA,
    ensures
        final(board).wf(),
        old(board)@[point.flat()] == Player::NA ==> r is Ok && final(board)@ == old(board)@.update(
            point.flat(),
            player,
        ),
        old(board)@[point.flat()] != Player::NA ==> (r matches Err(e) && e
            == GameError::OccupiedCell) && final(board)@ == old(board)@,
{
    let i: usize = (point.y as usize) * 3 + (point.x as usize);
    if board.cells[i] != Player::NA {
        return Err(GameError::OccupiedCell);
    }
    board.cells[i] = player;
    Ok(())
}

/// The opponent's whole move: it collects the still-empty cells among those
/// its random source can address, picks one of them uniformly at random, and
/// places `Y` there. When every such cell is taken it reports `None` and
/// leaves the board unchanged.
pub fn opponent_turn(board: &mut Board) -> (r: Option<Point>)
    requires
        old(board).wf(),
    ensures
        final(board).wf(),
        r matches Some(p) ==> p.wf() && opponent_reach(p.flat()) && old(board)@[p.flat()]
            == Player::NA && final(board)@ == old(board)@.update(p.flat(), Player::Y),
        r is None ==> final(board)@ == old(board)@ && (forall|i: int|
            opponent_reach(i) ==> old(board)@[i] != Player::NA),
{
    let mut empties: Vec<Point> = Vec::new();
    if board.cells[0] == Player::NA {
        empties.push(Point { x: 0, y: 0 });
    }
    if board.cells[1] == Player::NA {
        empties.push(Point { x: 1, y: 0 });
    }
    if board.cells[3] == Player::NA {
        empties.push(Point { x: 0, y: 1 });
    }
    if board.cells[4] == Player::NA {
        empties.push(Point { x: 1, y: 1 });
    }
    if empties.len() == 0 {
        return None;
    }
    let k = sample_below(empties.len() as u8);
    let p = empties[k as usize];
    let i: usize = (p.y as usize) * 3 + (p.x as usize);
    board.cells[i] = Player::Y;
    Some(p)
}

/// Placement at a point succeeds exactly once. On a board whose cell at `p`
/// is empty, `play_turn` succeeds and writes `m1` there; on the board that
/// results, the same cell is no longer empty, so a second `play_turn` at `p`
/// — whatever mark it brings — is refused with `OccupiedCell` and leaves the
/// cell holding `m1`.
pub proof fn lemma_place_exactly_once(b: Seq<Player>, p: Point, m1: Player)
    requires
        b.len() == 9,
        p.wf(),
        b[p.flat()] == Player::NA,
        m1 != Player::NA,
    ensures
        b.update(p.flat(), m1)[p.flat()] == m1,
        b.update(p.flat(), m1)[p.flat()] != Player::NA,
        b.update(p.flat(), m1).len() == 9,
{
}

/// Rendering is a pure function of the grid: two snapshots taken of the same
/// board, with no placement between them, are identical.
pub proof fn lemma_snapshot_idempotent(b: Seq<Player>, r1: Seq<char>, r2: Seq<char>)
    requires
        r1 == spec_snapshot(b),
        r2 == spec_snapshot(b),
    ensures
        r1 == r2,
{
}

} // verus!
