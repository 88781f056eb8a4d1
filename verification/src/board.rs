//! The mathematical model of the 4x4 board: a row-major sequence of 16
//! cells, the gravity-drop rule, the complete lines a team can own, and the
//! outcome the win detector assigns after a placement.

use vstd::prelude::*;

use crate::cells::{winner_of, Cell, Outcome, Team};

verus! {

/// A board is a row-major sequence of exactly 16 cells; row 0 is the top
/// row, row 3 the bottom one.
pub open spec fn board_wf(b: Seq<Cell>) -> bool {
    b.len() == 16
}

/// Both coordinates are zero-based indices into the 4x4 grid.
pub open spec fn in_range(row: int, col: int) -> bool {
    0 <= row < 4 && 0 <= col < 4
}

/// The flat index of a grid coordinate.
pub open spec fn idx(row: int, col: int) -> int {
    row * 4 + col
}

/// The marker in the given cell.
pub open spec fn cell_at(b: Seq<Cell>, row: int, col: int) -> Cell {
    b[idx(row, col)]
}

/// The board with exactly one cell overwritten.
pub open spec fn write_cell(b: Seq<Cell>, row: int, col: int, c: Cell) -> Seq<Cell> {
    b.update(idx(row, col), c)
}

/// Every one of the 16 cells holds a team marker.
pub open spec fn board_full(b: Seq<Cell>) -> bool {
    forall|i: int| 0 <= i < 16 ==> b[i] != Cell::Empty
}

/// The board a fresh or reset game starts from.
pub open spec fn empty_board() -> Seq<Cell> {
    Seq::new(16, |i: int| Cell::Empty)
}

/// The gravity-drop rule: a marker dropped into `col` lands in the lowest
/// currently empty cell, scanning from the bottom row upward; a column with
/// no empty cell takes no marker.
pub open spec fn drop_row(b: Seq<Cell>, col: int) -> Option<int> {
    if cell_at(b, 3, col) == Cell::Empty {
        Some(3)
    } else if cell_at(b, 2, col) == Cell::Empty {
        Some(2)
    } else if cell_at(b, 1, col) == Cell::Empty {
        Some(1)
    } else if cell_at(b, 0, col) == Cell::Empty {
        Some(0)
    } else {
        None
    }
}

/// All four cells of `row` hold the marker of `t`.
pub open spec fn row_won(b: Seq<Cell>, row: int, t: Team) -> bool {
    &&& cell_at(b, row, 0) == t.cell()
    &&& cell_at(b, row, 1) == t.cell()
    &&& cell_at(b, row, 2) == t.cell()
    &&& cell_at(b, row, 3) == t.cell()
}

/// All four cells of `col` hold the marker of `t`.
pub open spec fn col_won(b: Seq<Cell>, col: int, t: Team) -> bool {
    &&& cell_at(b, 0, col) == t.cell()
    &&& cell_at(b, 1, col) == t.cell()
    &&& cell_at(b, 2, col) == t.cell()
    &&& cell_at(b, 3, col) == t.cell()
}

/// The main diagonal, from the top-left to the bottom-right corner, holds
/// the marker of `t` in all four cells.
pub open spec fn diag_won(b: Seq<Cell>, t: Team) -> bool {
    &&& cell_at(b, 0, 0) == t.cell()
    &&& cell_at(b, 1, 1) == t.cell()
    &&& cell_at(b, 2, 2) == t.cell()
    &&& cell_at(b, 3, 3) == t.cell()
}

/// The anti-diagonal, from the bottom-left to the top-right corner, holds
/// the marker of `t` in all four cells.
pub open spec fn anti_won(b: Seq<Cell>, t: Team) -> bool {
    &&& cell_at(b, 0, 3) == t.cell()
    &&& cell_at(b, 1, 2) == t.cell()
    &&& cell_at(b, 2, 1) == t.cell()
    &&& cell_at(b, 3, 0) == t.cell()
}

/// Some line of four equal markers — a row, a column, or one of the two
/// diagonals — belongs to `t`.
pub open spec fn team_won(b: Seq<Cell>, t: Team) -> bool {
    ||| row_won(b, 0, t)
    ||| row_won(b, 1, t)
    ||| row_won(b, 2, t)
    ||| row_won(b, 3, t)
    ||| col_won(b, 0, t)
    ||| col_won(b, 1, t)
    ||| col_won(b, 2, t)
    ||| col_won(b, 3, t)
    ||| diag_won(b, t)
    ||| anti_won(b, t)
}

/// Some team owns a complete line.
pub open spec fn some_win(b: Seq<Cell>) -> bool {
    team_won(b, Team::Cookie) || team_won(b, Team::Milk)
}

/// The checks the win detector makes through the pivot cell `(row, col)`:
/// the pivot's row, the pivot's column, and each diagonal only when the
/// pivot lies on it. Each check asks that the line be non-empty and all
/// equal to the pivot marker.
pub open spec fn pivot_won(b: Seq<Cell>, row: int, col: int) -> bool {
    let pivot = cell_at(b, row, col);
    ||| (cell_at(b, row, 0) != Cell::Empty && cell_at(b, row, 0) == pivot && cell_at(b, row, 1)
        == pivot && cell_at(b, row, 2) == pivot && cell_at(b, row, 3) == pivot)
    ||| (cell_at(b, 0, col) != Cell::Empty && cell_at(b, 0, col) == pivot && cell_at(b, 1, col)
        == pivot && cell_at(b, 2, col) == pivot && cell_at(b, 3, col) == pivot)
    ||| (row == col && cell_at(b, 0, 0) != Cell::Empty && cell_at(b, 0, 0) == pivot && cell_at(
        b,
        1,
        1,
    ) == pivot && cell_at(b, 2, 2) == pivot && cell_at(b, 3, 3) == pivot)
    ||| (row + col == 3 && cell_at(b, 0, 3) != Cell::Empty && cell_at(b, 0, 3) == pivot
        && cell_at(b, 1, 2) == pivot && cell_at(b, 2, 1) == pivot && cell_at(b, 3, 0) == pivot)
}

/// What the win detector reports for the board `b` when the cell
/// `(row, col)` was placed last: a win through the pivot takes precedence,
/// then a completely filled board is a draw, and otherwise the game goes
/// on.
pub open spec fn evaluate(b: Seq<Cell>, row: int, col: int) -> Outcome {
    if pivot_won(b, row, col) {
        Outcome::Win(winner_of(cell_at(b, row, col)))
    } else if board_full(b) {
        Outcome::Draw
    } else {
        Outcome::Undecided
    }
}

/// Writing one marker onto an empty cell of a board without a complete
/// line can complete lines only through the written cell, and only for the
/// team that wrote: afterwards, the detector's pivot checks see a win
/// exactly when some line is complete, and a complete line can belong only
/// to that team.
pub proof fn lemma_new_win_hits_pivot(b: Seq<Cell>, row: int, col: int, t: Team)
    requires
        board_wf(b),
        in_range(row, col),
        !some_win(b),
        cell_at(b, row, col) == Cell::Empty,
    ensures
        some_win(write_cell(b, row, col, t.cell())) <==> pivot_won(
            write_cell(b, row, col, t.cell()),
            row,
            col,
        ),
        forall|t2: Team|
            team_won(write_cell(b, row, col, t.cell()), t2) ==> t2 == t,
{
    let bn = write_cell(b, row, col, t.cell());
    assert(cell_at(bn, row, col) == t.cell());
    assert forall|t2: Team| team_won(bn, t2) implies t2 == t by {
        if t2 != t {
            assert(t2.cell() != t.cell());
            assert(!row_won(bn, row, t2));
            assert(forall|r2: int| 0 <= r2 < 4 && r2 != row ==> row_won(bn, r2, t2) == row_won(
                b,
                r2,
                t2,
            ));
            assert(!col_won(bn, col, t2));
            assert(forall|c2: int| 0 <= c2 < 4 && c2 != col ==> col_won(bn, c2, t2) == col_won(
                b,
                c2,
                t2,
            ));
            if row == col {
                assert(!diag_won(bn, t2));
            } else {
                assert(diag_won(bn, t2) == diag_won(b, t2));
            }
            if row + col == 3 {
                assert(!anti_won(bn, t2));
            } else {
                assert(anti_won(bn, t2) == anti_won(b, t2));
            }
            assert(!team_won(b, t2));
            assert(false);
        }
    }
    if some_win(bn) {
        assert(team_won(bn, t));
        if row_won(bn, 0, t) || row_won(bn, 1, t) || row_won(bn, 2, t) || row_won(bn, 3, t) {
            assert(forall|r2: int| 0 <= r2 < 4 && r2 != row ==> row_won(bn, r2, t) == row_won(
                b,
                r2,
                t,
            ));
            assert(row_won(bn, row, t));
            assert(pivot_won(bn, row, col));
        } else if col_won(bn, 0, t) || col_won(bn, 1, t) || col_won(bn, 2, t) || col_won(
            bn,
            3,
            t,
        ) {
            assert(forall|c2: int| 0 <= c2 < 4 && c2 != col ==> col_won(bn, c2, t) == col_won(
                b,
                c2,
                t,
            ));
            assert(col_won(bn, col, t));
            assert(pivot_won(bn, row, col));
        } else if diag_won(bn, t) {
            assert(row == col);
            assert(pivot_won(bn, row, col));
        } else {
            assert(anti_won(bn, t));
            assert(row + col == 3);
            assert(pivot_won(bn, row, col));
        }
    }
    if pivot_won(bn, row, col) {
        assert(team_won(bn, t));
    }
}

} // verus!
