//! The closed marker sets of the game: cell markers, teams, and outcomes,
//! together with the parsing of the user-facing team token.

use vstd::prelude::*;

verus! {

/// One cell of the 4x4 grid. `Empty` is the only marker that may be
/// overwritten; a placed team marker stays until the game is reset.
#[derive(Clone, Copy, Debug, PartialEq, Eq, Structural)]
pub enum Cell {
    Empty,
    Cookie,
    Milk,
}

/// One of the two opposing teams that drop markers onto the board.
#[derive(Clone, Copy, Debug, PartialEq, Eq, Structural)]
pub enum Team {
    Cookie,
    Milk,
}

/// The game's classification: still running, won by a team, or drawn.
#[derive(Clone, Copy, Debug, PartialEq, Eq, Structural)]
pub enum Outcome {
    Undecided,
    Win(Team),
    Draw,
}

impl Team {
    /// The marker this team writes into a cell.
    pub open spec fn cell(self) -> Cell {
        match self {
            Team::Cookie => Cell::Cookie,
            Team::Milk => Cell::Milk,
        }
    }

    /// Executable counterpart of [`Team::cell`].
    pub fn marker(self) -> (c: Cell)
        ensures
            c == self.cell(),
    {
        match self {
            Team::Cookie => Cell::Cookie,
            Team::Milk => Cell::Milk,
        }
    }
}

/// The team that owns a winning line whose cells all hold `pivot`.
/// Meaningful only for non-empty markers; the win checks never let an
/// empty marker reach it.
pub open spec fn winner_of(pivot: Cell) -> Team {
    match pivot {
        Cell::Milk => Team::Milk,
        _ => Team::Cookie,
    }
}

/// What the team token of a placement request denotes: exactly the two
/// lower-case team names are accepted.
pub open spec fn parse_team_spec(s: Seq<char>) -> Option<Team> {
    if s == "cookie"@ {
        Some(Team::Cookie)
    } else if s == "milk"@ {
        Some(Team::Milk)
    } else {
        None
    }
}

/// Translate a user-facing team token into a team, rejecting every other
/// token.
pub fn parse_team(token: &str) -> (r: Option<Team>)
    ensures
        r == parse_team_spec(token@),
{
    let t: String = token.to_owned();
    if t == "cookie".to_owned() {
        Some(Team::Cookie)
    } else if t == "milk".to_owned() {
        Some(Team::Milk)
    } else {
        None
    }
}

} // verus!
