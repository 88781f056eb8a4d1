//! The live game: a board of 16 cells with the gravity placement engine,
//! the win detector, and the seeded preview-board generator.

use vstd::prelude::*;

use crate::board::{
    board_full, board_wf, cell_at, drop_row, empty_board, evaluate, lemma_new_win_hits_pivot,
    pivot_won, some_win, team_won, write_cell,
};
use crate::cells::{winner_of, Cell, Outcome, Team};
use crate::errors::PlaceError;
use crate::rng::{rng_stream, PreviewRng};

verus! {

/// The preview cell drawn at position `index` of the seed's sequence: a
/// cookie for a true draw, milk for a false one, never an empty cell.
pub open spec fn preview_cell(seed: u64, index: int) -> Cell {
    if rng_stream(seed, index) {
        Cell::Cookie
    } else {
        Cell::Milk
    }
}

/// The preview board generated when `start` booleans have already been
/// drawn from `seed`'s sequence: 16 preview cells in row-major order.
pub open spec fn preview_board(seed: u64, start: int) -> Seq<Cell> {
    Seq::new(16, |i: int| preview_cell(seed, start + i))
}

/// One live game: the 4x4 board in row-major order and the outcome the
/// win detector last assigned.
pub struct Game {
    pub board: Vec<Cell>,
    pub outcome: Outcome,
}

impl Game {
    /// The board has its 16 cells.
    pub open spec fn wf(self) -> bool {
        board_wf(self.board@)
    }

    /// The state-machine invariant of a live game: the outcome field
    /// truly classifies the board. While undecided no complete line
    /// exists, a recorded win names a team that owns a line, and a draw
    /// means a full board without a line.
    pub open spec fn inv(self) -> bool {
        &&& board_wf(self.board@)
        &&& match self.outcome {
            Outcome::Undecided => !some_win(self.board@),
            Outcome::Win(t) => team_won(self.board@, t),
            Outcome::Draw => board_full(self.board@) && !some_win(self.board@),
        }
    }

    /// A fresh game: 16 empty cells, outcome undecided.
    pub fn default() -> (g: Game)
        ensures
            g.board@ == empty_board(),
            g.outcome == Outcome::Undecided,
            g.inv(),
    {
        let mut board: Vec<Cell> = Vec::new();
        let mut i: usize = 0;
        while i < 16
            invariant
                i <= 16,
                board@.len() == i as int,
                forall|j: int| 0 <= j < i as int ==> board@[j] == Cell::Empty,
            decreases 16 - i,
        {
            board.push(Cell::Empty);
            i += 1;
        }
        proof {
            assert(board@ =~= empty_board());
        }
        Game { board, outcome: Outcome::Undecided }
    }

    /// The marker in the given cell.
    pub fn get(&self, row: usize, col: usize) -> (c: Cell)
        requires
            self.wf(),
            row < 4,
            col < 4,
        ensures
            c == cell_at(self.board@, row as int, col as int),
    {
        self.board[row * 4 + col]
    }

    /// Overwrite one cell.
    fn set(&mut self, row: usize, col: usize, c: Cell)
        requires
            old(self).wf(),
            row < 4,
            col < 4,
        ensures
            final(self).board@ == write_cell(old(self).board@, row as int, col as int, c),
            final(self).outcome == old(self).outcome,
    {
        self.board[row * 4 + col] = c;
    }

    /// Gravity-drop `team`'s marker into the zero-based column `col`: the
    /// marker lands in the lowest empty cell of the column and its row is
    /// returned; a full column takes no marker and leaves the game
    /// untouched.
    pub fn place(&mut self, team: Team, col: usize) -> (r: Option<usize>)
        requires
            old(self).wf(),
            old(self).outcome == Outcome::Undecided,
            col < 4,
        ensures
            final(self).wf(),
            final(self).outcome == old(self).outcome,
            ({
                let b0 = old(self).board@;
                match drop_row(b0, col as int) {
                    Some(row) => {
                        &&& r == Some(row as usize)
                        &&& final(self).board@ == write_cell(b0, row, col as int, team.cell())
                    },
                    None => {
                        &&& r is None
                        &&& final(self).board@ == b0
                    },
                }
            }),
    {
        let row: usize;
        if self.get(3, col) == Cell::Empty {
            row = 3;
        } else if self.get(2, col) == Cell::Empty {
            row = 2;
        } else if self.get(1, col) == Cell::Empty {
            row = 1;
        } else if self.get(0, col) == Cell::Empty {
            row = 0;
        } else {
            return None;
        }
        self.set(row, col, team.marker());
        Some(row)
    }

    /// The win detector: classify the board, using the just-placed cell
    /// `(row, col)` as the pivot. A line through the pivot wins, then a
    /// full board draws, and otherwise the game goes on.
    pub fn validate(&self, row: usize, col: usize) -> (o: Outcome)
        requires
            self.wf(),
            row < 4,
            col < 4,
        ensures
            o == evaluate(self.board@, row as int, col as int),
    {
        let pivot = self.get(row, col);
        // The pivot's row.
        if self.get(row, 0) != Cell::Empty && self.get(row, 0) == pivot && self.get(row, 1)
            == pivot && self.get(row, 2) == pivot && self.get(row, 3) == pivot {
            return Outcome::Win(winner_team(pivot));
        }
        // The pivot's column.
        if self.get(0, col) != Cell::Empty && self.get(0, col) == pivot && self.get(1, col)
            == pivot && self.get(2, col) == pivot && self.get(3, col) == pivot {
            return Outcome::Win(winner_team(pivot));
        }
        // The main diagonal, only when the pivot lies on it.
        if row == col && self.get(0, 0) != Cell::Empty && self.get(0, 0) == pivot && self.get(1, 1)
            == pivot && self.get(2, 2) == pivot && self.get(3, 3) == pivot {
            return Outcome::Win(winner_team(pivot));
        }
        // The anti-diagonal, only when the pivot lies on it.
        if row + col == 3 && self.get(0, 3) != Cell::Empty && self.get(0, 3) == pivot && self.get(
            1,
            2,
        ) == pivot && self.get(2, 1) == pivot && self.get(3, 0) == pivot {
            return Outcome::Win(winner_team(pivot));
        }
        // No line through the pivot: a full board is a draw.
        let mut i: usize = 0;
        let mut full: bool = true;
        while i < 16
            invariant
                self.wf(),
                i <= 16,
                full <==> (forall|j: int| 0 <= j < i as int ==> self.board@[j] != Cell::Empty),
            decreases 16 - i,
        {
            if self.board[i] == Cell::Empty {
                full = false;
            }
            i += 1;
        }
        if full {
            Outcome::Draw
        } else {
            Outcome::Undecided
        }
    }

    /// One complete placement on a live game: refuse it when the outcome
    /// is already decided, drop the marker under gravity, run the win
    /// detector with the new cell as pivot, and record what it reports. A
    /// refused placement leaves the game exactly as it was.
    pub fn play_move(&mut self, team: Team, col: usize) -> (r: Result<usize, PlaceError>)
        requires
            old(self).inv(),
            col < 4,
        ensures
            final(self).inv(),
            old(self).outcome != Outcome::Undecided ==> r == Err::<usize, PlaceError>(
                PlaceError::GameOver,
            ) && final(self).board@ == old(self).board@ && final(self).outcome == old(
                self,
            ).outcome,
            ({
                let b0 = old(self).board@;
                old(self).outcome == Outcome::Undecided ==> match drop_row(b0, col as int) {
                    None => {
                        &&& r == Err::<usize, PlaceError>(PlaceError::ColumnFull)
                        &&& final(self).board@ == b0
                        &&& final(self).outcome == old(self).outcome
                    },
                    Some(row) => {
                        &&& r == Ok::<usize, PlaceError>(row as usize)
                        &&& final(self).board@ == write_cell(b0, row, col as int, team.cell())
                        &&& final(self).outcome == evaluate(final(self).board@, row, col as int)
                    },
                }
            }),
    {
        if !matches!(self.outcome, Outcome::Undecided) {
            return Err(PlaceError::GameOver);
        }
        match self.place(team, col) {
            None => Err(PlaceError::ColumnFull),
            Some(row) => {
                let o = self.validate(row, col);
                self.outcome = o;
                proof {
                    let b0 = old(self).board@;
                    let bn = self.board@;
                    lemma_new_win_hits_pivot(b0, row as int, col as int, team);
                    assert(winner_of(team.cell()) == team);
                    if pivot_won(bn, row as int, col as int) {
                        assert(some_win(bn));
                        assert(team_won(bn, team));
                    }
                }
                Ok(row)
            },
        }
    }

    /// Generate a preview board from the seeded source: each of the 16
    /// cells is drawn in row-major order and forced to a team marker,
    /// never left empty. The outcome is deliberately not evaluated — a
    /// generated board may contain an unnoticed line win — and the live
    /// game is never read or written.
    pub fn generate_random(rng: &mut PreviewRng) -> (g: Game)
        requires
            old(rng).drawn() <= u64::MAX - 16,
        ensures
            final(rng).seed() == old(rng).seed(),
            final(rng).drawn() == old(rng).drawn() + 16,
            g.board@ == preview_board(old(rng).seed(), old(rng).drawn() as int),
            g.outcome == Outcome::Undecided,
            g.wf(),
            board_full(g.board@),
    {
        let mut board: Vec<Cell> = Vec::new();
        let mut i: usize = 0;
        while i < 16
            invariant
                i <= 16,
                old(rng).drawn() <= u64::MAX - 16,
                rng.seed() == old(rng).seed(),
                rng.drawn() == old(rng).drawn() + i as int,
                board@.len() == i as int,
                forall|j: int| 0 <= j < i as int ==> board@[j] == preview_cell(
                    old(rng).seed(),
                    old(rng).drawn() as int + j,
                ),
            decreases 16 - i,
        {
            let cookie: bool = rng.next_bool();
            if cookie {
                board.push(Cell::Cookie);
            } else {
                board.push(Cell::Milk);
            }
            i += 1;
        }
        proof {
            assert(board@ =~= preview_board(old(rng).seed(), old(rng).drawn() as int));
        }
        Game { board, outcome: Outcome::Undecided }
    }
}

/// The team that owns a winning line whose cells all hold `pivot`;
/// executable counterpart of [`winner_of`].
pub fn winner_team(pivot: Cell) -> (t: Team)
    ensures
        t == winner_of(pivot),
{
    match pivot {
        Cell::Milk => Team::Milk,
        _ => Team::Cookie,
    }
}

} // verus!
