//! Tests of the game service and the renderer: the four exposed
//! operations, the fixed textual form, and the reproducible preview
//! sequence.

use grid_game::cells::{Outcome, Team};
use grid_game::errors::PlaceError;
use grid_game::service::GameService;

const EMPTY_ROW: &str = "\u{2B1C}\u{2B1B}\u{2B1B}\u{2B1B}\u{2B1B}\u{2B1C}\n";
const BORDER_ROW: &str = "\u{2B1C}\u{2B1C}\u{2B1C}\u{2B1C}\u{2B1C}\u{2B1C}\n";

fn empty_board_text() -> String {
    format!("{EMPTY_ROW}{EMPTY_ROW}{EMPTY_ROW}{EMPTY_ROW}{BORDER_ROW}")
}

#[test]
fn new_service_renders_the_empty_board() {
    let s = GameService::new();
    assert_eq!(s.get_board_text(), empty_board_text());
}

#[test]
fn rendering_is_byte_stable() {
    let s = GameService::new();
    assert_eq!(s.get_board_text(), s.get_board_text());
}

#[test]
fn place_renders_the_dropped_marker() {
    let mut s = GameService::new();
    let text = s.place("cookie", 1).expect("a valid placement");
    let expected = format!(
        "{EMPTY_ROW}{EMPTY_ROW}{EMPTY_ROW}\u{2B1C}\u{1F36A}\u{2B1B}\u{2B1B}\u{2B1B}\u{2B1C}\n{BORDER_ROW}"
    );
    assert_eq!(text, expected);
    assert_eq!(s.get_board_text(), expected);
}

#[test]
fn four_cookie_placements_in_column_one_win() {
    let mut s = GameService::new();
    for _ in 0..3 {
        s.place("cookie", 1).expect("a valid placement");
    }
    assert_eq!(s.game.outcome, Outcome::Undecided);
    let text = s.place("cookie", 1).expect("the winning placement");
    assert_eq!(s.game.outcome, Outcome::Win(Team::Cookie));
    let last_line = text.lines().last().expect("a final line");
    assert_eq!(last_line, "\u{1F36A} wins!");
    assert!(text.ends_with("\u{1F36A} wins!\n"));
    // Afterwards every placement is refused with the game-over error.
    assert_eq!(s.place("milk", 3), Err(PlaceError::GameOver));
}

#[test]
fn drawn_game_renders_no_winner_line() {
    let mut s = GameService::new();
    // Columns 1 and 3 get milk, milk, cookie, cookie bottom-up; columns
    // 2 and 4 the reverse. The filled board holds no line of four.
    for col in [1u64, 3] {
        s.place("milk", col).expect("a valid placement");
        s.place("milk", col).expect("a valid placement");
        s.place("cookie", col).expect("a valid placement");
        s.place("cookie", col).expect("a valid placement");
    }
    for col in [2u64, 4] {
        s.place("cookie", col).expect("a valid placement");
        s.place("cookie", col).expect("a valid placement");
        s.place("milk", col).expect("a valid placement");
        let text = s.place("milk", col).expect("a valid placement");
        if col == 4 {
            assert_eq!(s.game.outcome, Outcome::Draw);
            assert_eq!(text.lines().last(), Some("No winner."));
            assert!(text.ends_with("No winner.\n"));
        }
    }
    assert_eq!(s.place("cookie", 1), Err(PlaceError::GameOver));
}

#[test]
fn invalid_column_is_rejected_before_touching_the_board() {
    let mut s = GameService::new();
    s.place("cookie", 2).expect("a valid placement");
    let before = s.get_board_text();
    assert_eq!(s.place("milk", 5), Err(PlaceError::InvalidColumn));
    assert_eq!(s.place("milk", 0), Err(PlaceError::InvalidColumn));
    assert_eq!(s.get_board_text(), before);
}

#[test]
fn invalid_team_token_is_rejected_before_touching_the_board() {
    let mut s = GameService::new();
    let before = s.get_board_text();
    assert_eq!(s.place("water", 1), Err(PlaceError::InvalidTeam));
    assert_eq!(s.place("", 1), Err(PlaceError::InvalidTeam));
    assert_eq!(s.place("COOKIE", 1), Err(PlaceError::InvalidTeam));
    assert_eq!(s.get_board_text(), before);
}

#[test]
fn reset_restores_the_empty_board_and_the_preview_sequence() {
    let mut s = GameService::new();
    s.place("cookie", 1).expect("a valid placement");
    s.place("milk", 2).expect("a valid placement");
    s.preview();
    let text = s.reset();
    assert_eq!(text, empty_board_text());
    assert_eq!(s.get_board_text(), empty_board_text());
    assert_eq!(s.game.outcome, Outcome::Undecided);

    let first = s.preview();
    let second = s.preview();
    s.reset();
    let first_again = s.preview();
    let second_again = s.preview();
    assert_eq!(first, first_again);
    assert_eq!(second, second_again);
}

#[test]
fn reset_clears_a_finished_game() {
    let mut s = GameService::new();
    for _ in 0..4 {
        s.place("milk", 2).expect("a valid placement");
    }
    assert_eq!(s.game.outcome, Outcome::Win(Team::Milk));
    assert_eq!(s.place("milk", 2), Err(PlaceError::GameOver));
    s.reset();
    assert_eq!(s.game.outcome, Outcome::Undecided);
    s.place("milk", 2).expect("play is allowed again after the reset");
}

#[test]
fn preview_board_text_shows_no_empty_cell() {
    let mut s = GameService::new();
    let text = s.preview();
    assert_eq!(text.chars().filter(|c| *c == '\u{2B1B}').count(), 0);
    let markers = text
        .chars()
        .filter(|c| *c == '\u{1F36A}' || *c == '\u{1F95B}')
        .count();
    assert_eq!(markers, 16);
    // The preview leaves the live game untouched.
    assert_eq!(s.get_board_text(), empty_board_text());
}

#[test]
fn milk_win_renders_the_milk_symbol() {
    let mut s = GameService::new();
    s.place("milk", 1).expect("a valid placement");
    s.place("milk", 2).expect("a valid placement");
    s.place("milk", 3).expect("a valid placement");
    let text = s.place("milk", 4).expect("the winning placement");
    assert_eq!(s.game.outcome, Outcome::Win(Team::Milk));
    assert!(text.ends_with("\u{1F95B} wins!\n"));
}
