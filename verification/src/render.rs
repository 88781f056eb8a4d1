//! The renderer: the fixed textual form of a board and its outcome.
//!
//! Each board row becomes a wall glyph, the four cell glyphs in order, a
//! wall glyph and a newline; after the four rows comes one full wall row;
//! and only a decided outcome adds one trailing line. The output is a pure
//! function of the game state, so identical states render to identical
//! text.

use vstd::prelude::*;

use crate::board::{board_wf, cell_at};
use crate::cells::{Cell, Outcome, Team};
use crate::game::Game;

verus! {

/// The glyph a cell is drawn as.
pub open spec fn glyph(c: Cell) -> Seq<char> {
    match c {
        Cell::Empty => "⬛"@,
        Cell::Cookie => "🍪"@,
        Cell::Milk => "🥛"@,
    }
}

/// The wall glyph that borders every row.
pub open spec fn wall() -> Seq<char> {
    "⬜"@
}

/// One rendered board row: wall, the four cells, wall, newline.
pub open spec fn row_text(b: Seq<Cell>, row: int) -> Seq<char> {
    wall() + glyph(cell_at(b, row, 0)) + glyph(cell_at(b, row, 1)) + glyph(cell_at(b, row, 2))
        + glyph(cell_at(b, row, 3)) + wall() + "\n"@
}

/// The first `n` rendered board rows, top to bottom.
pub open spec fn rows_text(b: Seq<Cell>, n: int) -> Seq<char>
    decreases n,
{
    if n <= 0 {
        Seq::empty()
    } else {
        rows_text(b, n - 1) + row_text(b, n - 1)
    }
}

/// The all-wall border row below the board.
pub open spec fn border_text() -> Seq<char> {
    "⬜⬜⬜⬜⬜⬜\n"@
}

/// The trailing outcome line: present exactly when the outcome is
/// decided.
pub open spec fn outcome_text(o: Outcome) -> Seq<char> {
    match o {
        Outcome::Undecided => Seq::empty(),
        Outcome::Win(Team::Cookie) => "🍪 wins!\n"@,
        Outcome::Win(Team::Milk) => "🥛 wins!\n"@,
        Outcome::Draw => "No winner.\n"@,
    }
}

/// The complete rendered text of a board and its outcome.
pub open spec fn render_text(b: Seq<Cell>, o: Outcome) -> Seq<char> {
    rows_text(b, 4) + border_text() + outcome_text(o)
}

/// Append one cell's glyph.
fn push_cell(s: &mut String, c: Cell)
    ensures
        final(s)@ == old(s)@ + glyph(c),
{
    match c {
        Cell::Empty => s.append("⬛"),
        Cell::Cookie => s.append("🍪"),
        Cell::Milk => s.append("🥛"),
    }
}

/// Render a game into its fixed textual form.
#[verifier::rlimit(50)]
pub fn render(g: &Game) -> (r: String)
    requires
        g.wf(),
    ensures
        r@ == render_text(g.board@, g.outcome),
{
    let mut s = String::new();
    let mut row: usize = 0;
    while row < 4
        invariant
            row <= 4,
            g.wf(),
            s@ == rows_text(g.board@, row as int),
        decreases 4 - row,
    {
        s.append("⬜");
        push_cell(&mut s, g.get(row, 0));
        push_cell(&mut s, g.get(row, 1));
        push_cell(&mut s, g.get(row, 2));
        push_cell(&mut s, g.get(row, 3));
        s.append("⬜");
        s.append("\n");
        proof {
            assert(s@ =~= rows_text(g.board@, row as int + 1));
        }
        row += 1;
    }
    s.append("⬜⬜⬜⬜⬜⬜\n");
    match g.outcome {
        Outcome::Undecided => (),
        Outcome::Win(Team::Cookie) => s.append("🍪 wins!\n"),
        Outcome::Win(Team::Milk) => s.append("🥛 wins!\n"),
        Outcome::Draw => s.append("No winner.\n"),
    }
    proof {
        assert(s@ =~= render_text(g.board@, g.outcome));
    }
    s
}

} // verus!
