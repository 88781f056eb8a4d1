//! Why a placement request can be refused, and how each refusal is
//! classed: a fault of the request itself, or a state of the game that
//! only a reset can clear.

use vstd::prelude::*;

verus! {

/// The ways a placement request fails. The request never touches the
/// board when it fails: validation completes before any mutation.
#[derive(Clone, Copy, Debug, PartialEq, Eq, Structural)]
pub enum PlaceError {
    /// The team token named neither team.
    InvalidTeam,
    /// The user-facing column was outside 1 through 4.
    InvalidColumn,
    /// The outcome is already decided; only a reset allows further play.
    GameOver,
    /// The chosen column has no empty cell left.
    ColumnFull,
}

impl PlaceError {
    /// Whether the refusal blames the request itself. The two refusals
    /// that blame the game's state instead, `GameOver` and `ColumnFull`,
    /// are surfaced as a service-unavailable condition: an inherited
    /// contract quirk, kept for compatibility.
    pub open spec fn is_validation_spec(self) -> bool {
        self == PlaceError::InvalidTeam || self == PlaceError::InvalidColumn
    }

    /// Executable counterpart of [`PlaceError::is_validation_spec`].
    pub fn is_validation(&self) -> (r: bool)
        ensures
            r == self.is_validation_spec(),
    {
        match self {
            PlaceError::InvalidTeam => true,
            PlaceError::InvalidColumn => true,
            PlaceError::GameOver => false,
            PlaceError::ColumnFull => false,
        }
    }
}

} // verus!
