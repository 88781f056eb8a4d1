//! The game service: the one live game and the one preview generator,
//! with the four operations the request layer consumes — get the board
//! text, reset, place, and preview.
//!
//! The service itself is sequential; the surrounding request layer puts
//! the game behind a shared/exclusive guard and the generator behind a
//! mutual-exclusion guard of its own.

use vstd::prelude::*;

use crate::board::{drop_row, empty_board, evaluate, write_cell};
use crate::cells::{parse_team, parse_team_spec, Outcome};
use crate::errors::PlaceError;
use crate::game::{preview_board, Game};
use crate::render::{render, render_text};
use crate::rng::PreviewRng;

verus! {

/// The fixed seed the preview generator starts from, and is returned to
/// by every reset: that makes the preview sequence reproducible.
pub const INITIAL_SEED: u64 = 2024;

/// The service that owns the live game and the preview generator.
pub struct GameService {
    pub game: Game,
    pub rng: PreviewRng,
}

/// The live game's board and outcome are the same in both service
/// states: a failed placement leaves no partial mutation behind.
pub open spec fn game_unchanged(s0: GameService, s1: GameService) -> bool {
    s1.game.board@ == s0.game.board@ && s1.game.outcome == s0.game.outcome
}

impl GameService {
    /// The live game satisfies its state-machine invariant.
    pub open spec fn inv(self) -> bool {
        self.game.inv()
    }

    /// A fresh service: an empty undecided game, and the generator seeded
    /// with the fixed initial seed.
    pub fn new() -> (s: GameService)
        ensures
            s.game.board@ == empty_board(),
            s.game.outcome == Outcome::Undecided,
            s.rng.seed() == INITIAL_SEED,
            s.rng.drawn() == 0,
            s.inv(),
    {
        GameService { game: Game::default(), rng: PreviewRng::new(INITIAL_SEED) }
    }

    /// The rendered text of the live board and its outcome.
    pub fn get_board_text(&self) -> (r: String)
        requires
            self.game.wf(),
        ensures
            r@ == render_text(self.game.board@, self.game.outcome),
    {
        render(&self.game)
    }

    /// Replace the game by a fresh empty one, reseed the generator to the
    /// fixed initial seed, and return the rendered empty board.
    pub fn reset(&mut self) -> (r: String)
        ensures
            final(self).game.board@ == empty_board(),
            final(self).game.outcome == Outcome::Undecided,
            final(self).rng.seed() == INITIAL_SEED,
            final(self).rng.drawn() == 0,
            final(self).inv(),
            r@ == render_text(final(self).game.board@, final(self).game.outcome),
    {
        self.game = Game::default();
        self.rng.reseed(INITIAL_SEED);
        render(&self.game)
    }

    /// One placement request, as the request layer hands it over: a team
    /// token and a one-based column. The token and the column are
    /// validated before the board is touched; a valid request is played
    /// on the live game and the freshly rendered board is returned. The
    /// generator is never involved.
    pub fn place(&mut self, team_token: &str, column: u64) -> (r: Result<String, PlaceError>)
        requires
            old(self).inv(),
        ensures
            final(self).inv(),
            final(self).rng == old(self).rng,
            parse_team_spec(team_token@) is None ==> r == Err::<String, PlaceError>(
                PlaceError::InvalidTeam,
            ) && game_unchanged(*old(self), *final(self)),
            parse_team_spec(team_token@) is Some && !(1 <= column <= 4) ==> r == Err::<
                String,
                PlaceError,
            >(PlaceError::InvalidColumn) && game_unchanged(*old(self), *final(self)),
            parse_team_spec(team_token@) is Some && 1 <= column <= 4 && old(self).game.outcome
                != Outcome::Undecided ==> r == Err::<String, PlaceError>(PlaceError::GameOver)
                && game_unchanged(*old(self), *final(self)),
            ({
                let t = parse_team_spec(team_token@)->Some_0;
                let col = column as int - 1;
                let b0 = old(self).game.board@;
                parse_team_spec(team_token@) is Some && 1 <= column <= 4 && old(
                    self,
                ).game.outcome == Outcome::Undecided ==> match drop_row(b0, col) {
                    None => {
                        &&& r == Err::<String, PlaceError>(PlaceError::ColumnFull)
                        &&& game_unchanged(*old(self), *final(self))
                    },
                    Some(row) => {
                        &&& final(self).game.board@ == write_cell(b0, row, col, t.cell())
                        &&& final(self).game.outcome == evaluate(final(self).game.board@, row, col)
                        &&& r is Ok
                        &&& r->Ok_0@ == render_text(
                            final(self).game.board@,
                            final(self).game.outcome,
                        )
                    },
                }
            }),
    {
        let team = match parse_team(team_token) {
            Some(team) => team,
            None => {
                return Err(PlaceError::InvalidTeam);
            },
        };
        if column < 1 || column > 4 {
            return Err(PlaceError::InvalidColumn);
        }
        let col: usize = (column - 1) as usize;
        match self.game.play_move(team, col) {
            Ok(_row) => Ok(render(&self.game)),
            Err(e) => Err(e),
        }
    }

    /// Generate and render a preview board from the shared seeded
    /// sequence. The live game is never read or written, and the board is
    /// deliberately not run through the win detector.
    pub fn preview(&mut self) -> (r: String)
        requires
            old(self).rng.drawn() <= u64::MAX - 16,
        ensures
            final(self).game == old(self).game,
            final(self).rng.seed() == old(self).rng.seed(),
            final(self).rng.drawn() == old(self).rng.drawn() + 16,
            r@ == render_text(
                preview_board(old(self).rng.seed(), old(self).rng.drawn() as int),
                Outcome::Undecided,
            ),
    {
        let preview = Game::generate_random(&mut self.rng);
        render(&preview)
    }
}

} // verus!
