use tictactoe::board::{play_turn, Board};
use tictactoe::game::{turn_cycle, TurnOutcome};
use tictactoe::mark::Player;
use tictactoe::point::Point;
use tictactoe::win::find_winner;

fn place(board: &mut Board, x: u8, y: u8, player: Player) {
    let p = Point::new(x, y).expect("coordinates on the board");
    play_turn(board, &p, player).expect("cell is free");
}

fn count_marks(board: &Board, player: Player) -> usize {
    (0..9).filter(|&i| board.cell(i) == player).count()
}

#[test]
fn winning_human_move_ends_the_cycle_before_the_opponent() {
    let mut board = Board::new();
    place(&mut board, 0, 0, Player::X);
    place(&mut board, 1, 0, Player::X);
    let outcome = turn_cycle(&mut board, 2, 0);
    assert_eq!(outcome, TurnOutcome::GameWon(Player::X));
    // the opponent never moved: the board holds the human's three marks only
    assert_eq!(count_marks(&board, Player::Y), 0);
    assert_eq!(count_marks(&board, Player::X), 3);
}

#[test]
fn open_cycle_lets_the_opponent_answer() {
    let mut board = Board::new();
    let outcome = turn_cycle(&mut board, 2, 2);
    assert_eq!(outcome, TurnOutcome::Continue);
    assert_eq!(board.cell(8), Player::X);
    // the opponent answered with one mark within its reach
    assert_eq!(count_marks(&board, Player::Y), 1);
    let y_cell = (0..9).find(|&i| board.cell(i) == Player::Y).unwrap();
    assert!(matches!(y_cell, 0 | 1 | 3 | 4));
}

#[test]
fn out_of_bounds_input_forfeits_the_human_move() {
    let mut board = Board::new();
    let outcome = turn_cycle(&mut board, 9, 9);
    assert_eq!(outcome, TurnOutcome::Continue);
    assert_eq!(count_marks(&board, Player::X), 0);
    assert_eq!(count_marks(&board, Player::Y), 1);
}

#[test]
fn occupied_cell_forfeits_the_human_move() {
    let mut board = Board::new();
    place(&mut board, 2, 2, Player::Y);
    let outcome = turn_cycle(&mut board, 2, 2);
    assert_eq!(outcome, TurnOutcome::Continue);
    assert_eq!(board.cell(8), Player::Y);
    assert_eq!(count_marks(&board, Player::X), 0);
    assert_eq!(count_marks(&board, Player::Y), 2);
}

#[test]
fn opponent_win_is_reported() {
    let mut board = Board::new();
    // column 0 already holds two opponent marks, and the only free cell in
    // the opponent's reach is (0, 1), which completes that column
    place(&mut board, 0, 0, Player::Y);
    place(&mut board, 1, 0, Player::X);
    place(&mut board, 1, 1, Player::X);
    place(&mut board, 0, 2, Player::Y);
    // human plays (2, 2); the only free cell in the opponent's reach is
    // (0, 1), which completes column 0 for Y
    let outcome = turn_cycle(&mut board, 2, 2);
    assert_eq!(outcome, TurnOutcome::GameWon(Player::Y));
    assert_eq!(board.cell(3), Player::Y);
    assert_eq!(find_winner(&board), Some(Player::Y));
}
