//! Tests of the board engine itself: gravity placement, the win
//! detector, the draw rule, and the preview generator.

use grid_game::cells::{parse_team, Cell, Outcome, Team};
use grid_game::errors::PlaceError;
use grid_game::game::Game;
use grid_game::rng::PreviewRng;

#[test]
fn column_fills_bottom_up_then_reports_full() {
    for col in 0..4usize {
        let mut g = Game::default();
        // Alternate the teams so no column win interferes.
        assert_eq!(g.place(Team::Cookie, col), Some(3));
        assert_eq!(g.place(Team::Milk, col), Some(2));
        assert_eq!(g.place(Team::Cookie, col), Some(1));
        assert_eq!(g.place(Team::Milk, col), Some(0));
        assert_eq!(g.place(Team::Cookie, col), None);
        assert_eq!(g.outcome, Outcome::Undecided);
    }
}

#[test]
fn fifth_move_into_full_column_fails_with_column_full() {
    let mut g = Game::default();
    assert_eq!(g.play_move(Team::Cookie, 2), Ok(3));
    assert_eq!(g.play_move(Team::Milk, 2), Ok(2));
    assert_eq!(g.play_move(Team::Cookie, 2), Ok(1));
    assert_eq!(g.play_move(Team::Milk, 2), Ok(0));
    assert_eq!(g.play_move(Team::Cookie, 2), Err(PlaceError::ColumnFull));
    assert_eq!(g.outcome, Outcome::Undecided);
}

#[test]
fn completed_column_wins_and_blocks_every_later_move() {
    let mut g = Game::default();
    assert_eq!(g.play_move(Team::Cookie, 0), Ok(3));
    assert_eq!(g.play_move(Team::Cookie, 0), Ok(2));
    assert_eq!(g.play_move(Team::Cookie, 0), Ok(1));
    assert_eq!(g.outcome, Outcome::Undecided);
    assert_eq!(g.play_move(Team::Cookie, 0), Ok(0));
    assert_eq!(g.outcome, Outcome::Win(Team::Cookie));
    // Any placement afterwards is refused, whatever the column.
    assert_eq!(g.play_move(Team::Milk, 1), Err(PlaceError::GameOver));
    assert_eq!(g.play_move(Team::Cookie, 0), Err(PlaceError::GameOver));
    assert_eq!(g.outcome, Outcome::Win(Team::Cookie));
}

#[test]
fn completed_row_wins_for_the_placing_team() {
    let mut g = Game::default();
    // Bottom row: cookie in columns 0..=2, then the completing move.
    assert_eq!(g.play_move(Team::Cookie, 0), Ok(3));
    assert_eq!(g.play_move(Team::Cookie, 1), Ok(3));
    assert_eq!(g.play_move(Team::Cookie, 2), Ok(3));
    assert_eq!(g.play_move(Team::Cookie, 3), Ok(3));
    assert_eq!(g.outcome, Outcome::Win(Team::Cookie));
}

#[test]
fn completed_main_diagonal_wins() {
    let mut g = Game::default();
    // Build supports with milk so cookie lands on (3,3), (2,2), (1,1), (0,0).
    assert_eq!(g.play_move(Team::Cookie, 3), Ok(3));
    assert_eq!(g.play_move(Team::Milk, 2), Ok(3));
    assert_eq!(g.play_move(Team::Cookie, 2), Ok(2));
    assert_eq!(g.play_move(Team::Milk, 1), Ok(3));
    assert_eq!(g.play_move(Team::Milk, 1), Ok(2));
    assert_eq!(g.play_move(Team::Cookie, 1), Ok(1));
    assert_eq!(g.play_move(Team::Milk, 0), Ok(3));
    assert_eq!(g.play_move(Team::Milk, 0), Ok(2));
    assert_eq!(g.play_move(Team::Milk, 0), Ok(1));
    assert_eq!(g.play_move(Team::Cookie, 0), Ok(0));
    assert_eq!(g.outcome, Outcome::Win(Team::Cookie));
}

#[test]
fn full_board_without_line_is_a_draw() {
    let mut g = Game::default();
    // Bottom-up per column: 0 and 2 get milk, milk, cookie, cookie;
    // 1 and 3 get cookie, cookie, milk, milk. No line of four arises.
    for col in [0usize, 2] {
        assert_eq!(g.play_move(Team::Milk, col), Ok(3));
        assert_eq!(g.play_move(Team::Milk, col), Ok(2));
        assert_eq!(g.play_move(Team::Cookie, col), Ok(1));
        assert_eq!(g.play_move(Team::Cookie, col), Ok(0));
        assert_eq!(g.outcome, Outcome::Undecided);
    }
    assert_eq!(g.play_move(Team::Cookie, 1), Ok(3));
    assert_eq!(g.play_move(Team::Cookie, 1), Ok(2));
    assert_eq!(g.play_move(Team::Milk, 1), Ok(1));
    assert_eq!(g.play_move(Team::Milk, 1), Ok(0));
    assert_eq!(g.outcome, Outcome::Undecided);
    assert_eq!(g.play_move(Team::Cookie, 3), Ok(3));
    assert_eq!(g.play_move(Team::Cookie, 3), Ok(2));
    assert_eq!(g.play_move(Team::Milk, 3), Ok(1));
    assert_eq!(g.play_move(Team::Milk, 3), Ok(0));
    // The move that fills the last cell reports the draw.
    assert_eq!(g.outcome, Outcome::Draw);
    assert_eq!(g.play_move(Team::Milk, 0), Err(PlaceError::GameOver));
}

#[test]
fn preview_board_has_sixteen_filled_cells() {
    let mut rng = PreviewRng::new(7);
    let g = Game::generate_random(&mut rng);
    assert_eq!(g.board.len(), 16);
    for cell in &g.board {
        assert_ne!(*cell, Cell::Empty);
    }
    assert_eq!(g.outcome, Outcome::Undecided);
}

#[test]
fn preview_generator_is_reproducible_per_seed() {
    let mut a = PreviewRng::new(2024);
    let mut b = PreviewRng::new(2024);
    let ga = Game::generate_random(&mut a);
    let gb = Game::generate_random(&mut b);
    assert_eq!(ga.board, gb.board);
    // The sequence advances: a second board differs from the first
    // for this seed.
    let ga2 = Game::generate_random(&mut a);
    assert_ne!(ga.board, ga2.board);
}

#[test]
fn different_seeds_give_different_previews() {
    let mut a = PreviewRng::new(1);
    let mut b = PreviewRng::new(2);
    let ga = Game::generate_random(&mut a);
    let gb = Game::generate_random(&mut b);
    assert_ne!(ga.board, gb.board);
}

#[test]
fn parse_team_accepts_exactly_the_two_tokens() {
    assert_eq!(parse_team("cookie"), Some(Team::Cookie));
    assert_eq!(parse_team("milk"), Some(Team::Milk));
    assert_eq!(parse_team("Cookie"), None);
    assert_eq!(parse_team("MILK"), None);
    assert_eq!(parse_team(""), None);
    assert_eq!(parse_team("water"), None);
}

#[test]
fn error_classification_separates_request_faults_from_state() {
    assert!(PlaceError::InvalidTeam.is_validation());
    assert!(PlaceError::InvalidColumn.is_validation());
    assert!(!PlaceError::GameOver.is_validation());
    assert!(!PlaceError::ColumnFull.is_validation());
}
