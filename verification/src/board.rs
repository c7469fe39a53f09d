//! The 3x3 board: cells, placement and win detection.

use vstd::prelude::*;
use crate::piece::Piece;

verus! {

/// The mathematical board: nine cells, the cell at column `col` and row `row`
/// at index `col * 3 + row`.
pub type Grid = Seq<Option<Piece>>;

/// Why a board operation was refused.
#[derive(Clone, Copy, Debug, PartialEq, Eq, Structural)]
pub enum BoardError {
    /// The column or the row is not in `0..3`.
    OutOfRange,
    /// The cell already holds a piece.
    CellOccupied,
}

pub open spec fn in_grid(col: int, row: int) -> bool {
    0 <= col < 3 && 0 <= row < 3
}

pub open spec fn empty_grid() -> Grid {
    Seq::new(9, |i: int| None::<Piece>)
}

/// What the cell at (`col`, `row`) holds.
pub open spec fn cell(g: Grid, col: int, row: int) -> Option<Piece>
    recommends
        g.len() == 9,
        in_grid(col, row),
{
    g[col * 3 + row]
}

/// The grid after `piece` is written to the cell at (`col`, `row`).
pub open spec fn placed(g: Grid, col: int, row: int, piece: Piece) -> Grid
    recommends
        g.len() == 9,
        in_grid(col, row),
{
    g.update(col * 3 + row, Some(piece))
}

/// Whether a piece can be placed at (`col`, `row`), and why not if it cannot.
pub open spec fn place_verdict(g: Grid, col: int, row: int) -> Result<(), BoardError> {
    if !in_grid(col, row) {
        Err(BoardError::OutOfRange)
    } else if cell(g, col, row) is Some {
        Err(BoardError::CellOccupied)
    } else {
        Ok(())
    }
}

/// The grid after an attempt to place `piece` at (`col`, `row`): the piece is
/// written to a cell that is on the board and empty, and nothing changes
/// otherwise.
pub open spec fn after_place(g: Grid, col: int, row: int, piece: Piece) -> Grid {
    if in_grid(col, row) && cell(g, col, row) is None {
        placed(g, col, row, piece)
    } else {
        g
    }
}

/// The `j`-th cell (column, row) of line `k`. Lines are numbered in scan
/// order: rows 0 to 2, columns 0 to 2, the main diagonal from (0,0) to (2,2),
/// the anti-diagonal from (2,0) to (0,2).
pub open spec fn line_cell(k: int, j: int) -> (int, int)
    recommends
        0 <= k < 8,
        0 <= j < 3,
{
    if k < 3 {
        (j, k)
    } else if k < 6 {
        (k - 3, j)
    } else if k == 6 {
        (j, j)
    } else {
        (2 - j, j)
    }
}

/// The piece that holds all three of the given cells, if one does.
pub open spec fn three_alike(a: Option<Piece>, b: Option<Piece>, c: Option<Piece>) -> Option<
    Piece,
> {
    if a is Some && a == b && b == c {
        a
    } else {
        None
    }
}

/// The piece that fills line `k`, if the line's three cells hold the same piece.
pub open spec fn line_piece(g: Grid, k: int) -> Option<Piece>
    recommends
        g.len() == 9,
        0 <= k < 8,
{
    three_alike(
        cell(g, line_cell(k, 0).0, line_cell(k, 0).1),
        cell(g, line_cell(k, 1).0, line_cell(k, 1).1),
        cell(g, line_cell(k, 2).0, line_cell(k, 2).1),
    )
}

/// The piece of the first filled line among lines `k..8`.
pub open spec fn winner_from(g: Grid, k: int) -> Option<Piece>
    decreases 8 - k,
{
    if k >= 8 {
        None
    } else if line_piece(g, k) is Some {
        line_piece(g, k)
    } else {
        winner_from(g, k + 1)
    }
}

/// The piece of the first filled line in scan order, if any line is filled.
pub open spec fn winner(g: Grid) -> Option<Piece> {
    winner_from(g, 0)
}

/// A 3x3 board of cells, each empty or holding one piece.
#[derive(Clone, Copy, Debug)]
pub struct Board {
    pub cells: [Option<Piece>; 9],
}

impl View for Board {
    type V = Grid;

    open spec fn view(&self) -> Grid {
        self.cells@
    }
}

/// The piece shared by three cells, if all three hold the same one.
fn same_piece(a: Option<Piece>, b: Option<Piece>, c: Option<Piece>) -> (p: Option<Piece>)
    ensures
        p == three_alike(a, b, c),
{
    match (a, b, c) {
        (Some(x), Some(y), Some(z)) => {
            if x == y && y == z {
                Some(x)
            } else {
                None
            }
        },
        _ => None,
    }
}

impl Board {
    /// The empty board.
    pub fn new() -> (b: Board)
        ensures
            b@ == empty_grid(),
    {
        let b = Board { cells: [None; 9] };
        assert(b@ =~= empty_grid());
        b
    }

    /// The content of the cell at (`col`, `row`), or `OutOfRange` when the
    /// address is not on the board.
    pub fn get(&self, col: usize, row: usize) -> (r: Result<Option<Piece>, BoardError>)
        ensures
            self@.len() == 9,
            in_grid(col as int, row as int) ==> r == Ok::<Option<Piece>, BoardError>(
                cell(self@, col as int, row as int),
            ),
            !in_grid(col as int, row as int) ==> r == Err::<Option<Piece>, BoardError>(
                BoardError::OutOfRange,
            ),
    {
        if col >= 3 || row >= 3 {
            return Err(BoardError::OutOfRange);
        }
        Ok(self.cells[col * 3 + row])
    }

    /// Puts `piece` on the cell at (`col`, `row`) if the cell is on the board
    /// and empty. A refused placement leaves the board as it was.
    pub fn place(&mut self, col: usize, row: usize, piece: Piece) -> (r: Result<(), BoardError>)
        ensures
            r == place_verdict(old(self)@, col as int, row as int),
            final(self)@ == after_place(old(self)@, col as int, row as int, piece),
            r is Err ==> final(self)@ == old(self)@,
            final(self)@.len() == 9,
    {
        if col >= 3 || row >= 3 {
            return Err(BoardError::OutOfRange);
        }
        let idx: usize = col * 3 + row;
        match self.cells[idx] {
            Some(_) => Err(BoardError::CellOccupied),
            None => {
                self.cells[idx] = Some(piece);
                Ok(())
            },
        }
    }

    /// The piece of the first filled line, scanning the rows, then the
    /// columns, then the main diagonal, then the anti-diagonal.
    pub fn check_win(&self) -> (w: Option<Piece>)
        ensures
            w == winner(self@),
            w is None <==> forall|k: int| 0 <= k < 8 ==> line_piece(self@, k) is None,
            w is Some ==> exists|k: int|
                0 <= k < 8 && line_piece(self@, k) == w && forall|j: int|
                    0 <= j < k ==> line_piece(self@, j) is None,
    {
        let ghost g = self@;
        let mut y: usize = 0;
        while y < 3
            invariant
                0 <= y <= 3,
                g == self@,
                winner(g) == winner_from(g, y as int),
            decreases 3 - y,
        {
            let p = same_piece(self.cells[y], self.cells[3 + y], self.cells[6 + y]);
            if p.is_some() {
                proof {
                    lemma_winner_is_first_line(g);
                }
                return p;
            }
            y += 1;
        }
        let mut x: usize = 0;
        while x < 3
            invariant
                0 <= x <= 3,
                g == self@,
                winner(g) == winner_from(g, 3 + x as int),
            decreases 3 - x,
        {
            let p = same_piece(self.cells[x * 3], self.cells[x * 3 + 1], self.cells[x * 3 + 2]);
            if p.is_some() {
                proof {
                    lemma_winner_is_first_line(g);
                }
                return p;
            }
            x += 1;
        }
        proof {
            lemma_winner_is_first_line(g);
        }
        let p = same_piece(self.cells[0], self.cells[4], self.cells[8]);
        if p.is_some() {
            return p;
        }
        assert(winner(g) == winner_from(g, 7));
        let p = same_piece(self.cells[6], self.cells[4], self.cells[2]);
        assert(winner_from(g, 8) is None);
        p
    }
}

/// `winner_from(g, k)` is the piece of the first filled line at or after
/// `k`, and `None` exactly when no such line is filled.
pub proof fn lemma_winner_from(g: Grid, k: int)
    requires
        0 <= k <= 8,
    ensures
        winner_from(g, k) is None <==> forall|j: int| k <= j < 8 ==> line_piece(g, j) is None,
        winner_from(g, k) is Some ==> exists|i: int|
            k <= i < 8 && line_piece(g, i) == winner_from(g, k) && forall|j: int|
                k <= j < i ==> line_piece(g, j) is None,
    decreases 8 - k,
{
    if k < 8 {
        lemma_winner_from(g, k + 1);
        if line_piece(g, k) is Some {
            assert(k <= k < 8 && line_piece(g, k) == winner_from(g, k) && forall|j: int|
                k <= j < k ==> line_piece(g, j) is None);
        } else {
            if winner_from(g, k) is Some {
                let i = choose|i: int|
                    k + 1 <= i < 8 && line_piece(g, i) == winner_from(g, k + 1) && forall|j: int|
                        k + 1 <= j < i ==> line_piece(g, j) is None;
                assert(k <= i < 8 && line_piece(g, i) == winner_from(g, k) && forall|j: int|
                    k <= j < i ==> line_piece(g, j) is None);
            }
        }
    }
}

/// The winner is the piece of the first filled line in scan order; there is
/// none exactly when no line is filled.
pub proof fn lemma_winner_is_first_line(g: Grid)
    ensures
        winner(g) is None <==> forall|k: int| 0 <= k < 8 ==> line_piece(g, k) is None,
        winner(g) is Some ==> exists|k: int|
            0 <= k < 8 && line_piece(g, k) == winner(g) && forall|j: int|
                0 <= j < k ==> line_piece(g, j) is None,
{
    lemma_winner_from(g, 0);
}

} // verus!
