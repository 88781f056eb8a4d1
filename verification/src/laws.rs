//! The general laws of the engine, each stated over the board model and
//! proved once and for all. The scenario-shaped counterparts live in the
//! test suite.

use vstd::prelude::*;

use crate::board::{
    board_full, board_wf, cell_at, drop_row, evaluate, in_range, lemma_new_win_hits_pivot,
    some_win, team_won, write_cell,
};
use crate::cells::{Cell, Outcome, Team};
use crate::game::preview_board;
use crate::service::{GameService, INITIAL_SEED};

verus! {

/// Law of the gravity drop: in any column whose four cells are empty,
/// four consecutive placements into that column land in rows 3, 2, 1 and
/// 0, in that order, and a fifth placement finds the column full.
pub proof fn lemma_column_fills_bottom_up(
    b0: Seq<Cell>,
    col: int,
    t1: Team,
    t2: Team,
    t3: Team,
    t4: Team,
)
    requires
        board_wf(b0),
        0 <= col < 4,
        cell_at(b0, 0, col) == Cell::Empty,
        cell_at(b0, 1, col) == Cell::Empty,
        cell_at(b0, 2, col) == Cell::Empty,
        cell_at(b0, 3, col) == Cell::Empty,
    ensures
        ({
            let b1 = write_cell(b0, 3, col, t1.cell());
            let b2 = write_cell(b1, 2, col, t2.cell());
            let b3 = write_cell(b2, 1, col, t3.cell());
            let b4 = write_cell(b3, 0, col, t4.cell());
            &&& drop_row(b0, col) == Some(3int)
            &&& drop_row(b1, col) == Some(2int)
            &&& drop_row(b2, col) == Some(1int)
            &&& drop_row(b3, col) == Some(0int)
            &&& drop_row(b4, col) is None
        }),
{
}

/// Law of the win detector: placing a marker onto an empty cell of a
/// board without a complete line makes the detector report a win exactly
/// when the placement completed a line — any row, any column, or either
/// diagonal — and then the win names the team that placed.
pub proof fn lemma_completed_line_wins(b: Seq<Cell>, row: int, col: int, t: Team)
    requires
        board_wf(b),
        in_range(row, col),
        !some_win(b),
        cell_at(b, row, col) == Cell::Empty,
    ensures
        ({
            let bn = write_cell(b, row, col, t.cell());
            &&& (evaluate(bn, row, col) is Win <==> some_win(bn))
            &&& (evaluate(bn, row, col) is Win ==> evaluate(bn, row, col) == Outcome::Win(t)
                && team_won(bn, t))
        }),
{
    lemma_new_win_hits_pivot(b, row, col, t);
}

/// Law of the draw rule: under the same conditions, the detector reports
/// a draw exactly when the board ends up completely full with no line of
/// four equal markers on it.
pub proof fn lemma_draw_iff_full_without_line(b: Seq<Cell>, row: int, col: int, t: Team)
    requires
        board_wf(b),
        in_range(row, col),
        !some_win(b),
        cell_at(b, row, col) == Cell::Empty,
    ensures
        ({
            let bn = write_cell(b, row, col, t.cell());
            evaluate(bn, row, col) == Outcome::Draw <==> board_full(bn) && !some_win(bn)
        }),
{
    lemma_new_win_hits_pivot(b, row, col, t);
}

/// Law of the reset: any two services that have just been reset — their
/// generators carry the fixed initial seed and no draws — will produce
/// the same first preview board and the same second preview board, so
/// the preview sequence is reproducible across resets.
pub proof fn lemma_reset_previews_reproducible(s1: GameService, s2: GameService)
    requires
        s1.rng.seed() == INITIAL_SEED,
        s1.rng.drawn() == 0,
        s2.rng.seed() == INITIAL_SEED,
        s2.rng.drawn() == 0,
    ensures
        preview_board(s1.rng.seed(), s1.rng.drawn() as int) == preview_board(
            s2.rng.seed(),
            s2.rng.drawn() as int,
        ),
        preview_board(s1.rng.seed(), s1.rng.drawn() as int + 16) == preview_board(
            s2.rng.seed(),
            s2.rng.drawn() as int + 16,
        ),
{
}

} // verus!
