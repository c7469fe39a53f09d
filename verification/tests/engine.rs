use tictactoe::board::BoardError;
use tictactoe::engine::{get_click_on_square, square_under, Game, GameState, Player, TurnOutcome};
use tictactoe::piece::{Piece, PIXEL_BLACK};

/// A screen position inside the square at (col, row).
fn at(col: usize, row: usize) -> (usize, usize) {
    (col * 8 + 3, row * 8 + 4)
}

fn click(game: &mut Game, col: usize, row: usize) -> TurnOutcome {
    let (x, y) = at(col, row);
    game.handle_click(x, y)
}

fn square_of(game: &Game, col: usize, row: usize) -> Vec<u32> {
    let mut out = Vec::new();
    for r in 0..8 {
        for c in 0..8 {
            out.push(game.buffer[(row * 8 + r) * 24 + col * 8 + c]);
        }
    }
    out
}

fn flat(shape: [[u32; 8]; 8]) -> Vec<u32> {
    shape.iter().flat_map(|row| row.iter().copied()).collect()
}

fn drawn_game() -> Game {
    let mut game = Game::new();
    let moves = [(0, 0), (1, 0), (2, 0), (1, 1), (0, 1), (2, 1), (1, 2), (0, 2), (2, 2)];
    for (i, &(col, row)) in moves.iter().enumerate() {
        let piece = if i % 2 == 0 { Piece::X } else { Piece::O };
        assert_eq!(click(&mut game, col, row), TurnOutcome::Moved(col, row, piece));
    }
    game
}

#[test]
fn new_game_waits_for_player_one_on_an_empty_black_board() {
    let game = Game::new();
    assert_eq!(game.state, GameState::PlayerTurn(1));
    assert_eq!(game.board.cells, [None; 9]);
    assert!(!game.mouse_is_held);
    assert_eq!(game.buffer, vec![PIXEL_BLACK; 24 * 24]);
}

#[test]
fn players_and_their_pieces() {
    assert_eq!(Player::numbered(1), Player { num: 1, piece: Piece::X });
    assert_eq!(Player::numbered(2), Player { num: 2, piece: Piece::O });
    assert_eq!(Player::owning(Piece::X), Player { num: 1, piece: Piece::X });
    assert_eq!(Player::owning(Piece::O), Player { num: 2, piece: Piece::O });
}

#[test]
fn square_under_divides_by_the_square_size() {
    assert_eq!(square_under(0, 0), Some((0, 0)));
    assert_eq!(square_under(7, 7), Some((0, 0)));
    assert_eq!(square_under(8, 7), Some((1, 0)));
    assert_eq!(square_under(15, 16), Some((1, 2)));
    assert_eq!(square_under(23, 23), Some((2, 2)));
    assert_eq!(square_under(24, 0), None);
    assert_eq!(square_under(0, 24), None);
    assert_eq!(square_under(usize::MAX, usize::MAX), None);
}

#[test]
fn column_of_three_wins_for_player_one() {
    let mut game = Game::new();
    assert_eq!(click(&mut game, 0, 0), TurnOutcome::Moved(0, 0, Piece::X));
    assert_eq!(click(&mut game, 1, 0), TurnOutcome::Moved(1, 0, Piece::O));
    assert_eq!(click(&mut game, 0, 1), TurnOutcome::Moved(0, 1, Piece::X));
    assert_eq!(click(&mut game, 1, 1), TurnOutcome::Moved(1, 1, Piece::O));
    assert_eq!(game.board.check_win(), None);
    assert_eq!(game.state, GameState::PlayerTurn(1));
    assert_eq!(click(&mut game, 0, 2), TurnOutcome::Win(1));
    assert_eq!(game.board.check_win(), Some(Piece::X));
    assert_eq!(game.state, GameState::PlayerWon(1));
}

#[test]
fn player_two_can_win() {
    let mut game = Game::new();
    for &(col, row) in &[(0, 0), (2, 0), (0, 1), (1, 1), (2, 2)] {
        assert!(matches!(click(&mut game, col, row), TurnOutcome::Moved(..)));
    }
    assert_eq!(click(&mut game, 0, 2), TurnOutcome::Win(2));
    assert_eq!(game.state, GameState::PlayerWon(2));
    assert_eq!(game.board.check_win(), Some(Piece::O));
}

#[test]
fn same_cell_twice_is_rejected() {
    let mut game = Game::new();
    assert_eq!(click(&mut game, 0, 0), TurnOutcome::Moved(0, 0, Piece::X));
    let board = game.board.cells;
    let buffer = game.buffer.clone();
    assert_eq!(click(&mut game, 0, 0), TurnOutcome::NoOp);
    assert_eq!(game.board.cells, board);
    assert_eq!(game.buffer, buffer);
    assert_eq!(game.state, GameState::PlayerTurn(2));
    assert_eq!(game.board.get(0, 0), Ok(Some(Piece::X)));
    assert_eq!(game.board.place(0, 0, Piece::O), Err(BoardError::CellOccupied));
}

#[test]
fn click_outside_the_grid_changes_nothing() {
    let mut game = Game::new();
    assert_eq!(click(&mut game, 1, 1), TurnOutcome::Moved(1, 1, Piece::X));
    let board = game.board.cells;
    let buffer = game.buffer.clone();
    for &(x, y) in &[(24, 0), (0, 24), (24, 24), (100, 3), (3, 1000)] {
        assert_eq!(game.handle_click(x, y), TurnOutcome::NoOp);
        assert_eq!(game.board.cells, board);
        assert_eq!(game.buffer, buffer);
        assert_eq!(game.state, GameState::PlayerTurn(2));
    }
}

#[test]
fn full_board_without_line_rejects_every_click() {
    let mut game = drawn_game();
    assert_eq!(game.state, GameState::PlayerTurn(2));
    assert_eq!(game.board.check_win(), None);
    let board = game.board.cells;
    let buffer = game.buffer.clone();
    for col in 0..3 {
        for row in 0..3 {
            assert_eq!(click(&mut game, col, row), TurnOutcome::NoOp);
            assert_eq!(game.board.place(col, row, Piece::O), Err(BoardError::CellOccupied));
            assert_eq!(game.state, GameState::PlayerTurn(2));
        }
    }
    assert_eq!(game.board.cells, board);
    assert_eq!(game.buffer, buffer);
}

#[test]
fn turns_alternate_after_accepted_moves() {
    let mut game = Game::new();
    assert_eq!(click(&mut game, 2, 2), TurnOutcome::Moved(2, 2, Piece::X));
    assert_eq!(game.state, GameState::PlayerTurn(2));
    assert_eq!(click(&mut game, 2, 1), TurnOutcome::Moved(2, 1, Piece::O));
    assert_eq!(game.state, GameState::PlayerTurn(1));
    assert_eq!(click(&mut game, 2, 1), TurnOutcome::NoOp);
    assert_eq!(game.state, GameState::PlayerTurn(1));
    assert_eq!(click(&mut game, 0, 1), TurnOutcome::Moved(0, 1, Piece::X));
    assert_eq!(game.state, GameState::PlayerTurn(2));
}

#[test]
fn won_game_accepts_no_further_move() {
    let mut game = Game::new();
    for &(col, row) in &[(0, 0), (1, 0), (0, 1), (1, 1)] {
        click(&mut game, col, row);
    }
    assert_eq!(click(&mut game, 0, 2), TurnOutcome::Win(1));
    let board = game.board.cells;
    let buffer = game.buffer.clone();
    assert_eq!(click(&mut game, 2, 2), TurnOutcome::NoOp);
    assert_eq!(game.step(true, Some(at(2, 2))), TurnOutcome::NoOp);
    assert_eq!(game.board.cells, board);
    assert_eq!(game.buffer, buffer);
    assert_eq!(game.state, GameState::PlayerWon(1));
}

#[test]
fn accepted_move_draws_the_glyph_in_its_square() {
    let mut game = Game::new();
    assert_eq!(click(&mut game, 2, 1), TurnOutcome::Moved(2, 1, Piece::X));
    assert_eq!(square_of(&game, 2, 1), flat(Piece::X.get_shape()));
    assert_eq!(click(&mut game, 0, 2), TurnOutcome::Moved(0, 2, Piece::O));
    assert_eq!(square_of(&game, 0, 2), flat(Piece::O.get_shape()));
    assert_eq!(square_of(&game, 2, 1), flat(Piece::X.get_shape()));
    for &(col, row) in &[(0, 0), (1, 0), (2, 0), (0, 1), (1, 1), (1, 2), (2, 2)] {
        assert_eq!(square_of(&game, col, row), vec![PIXEL_BLACK; 64]);
    }
}

#[test]
fn held_button_makes_one_move() {
    let mut game = Game::new();
    let mut moves = 0;
    for _ in 0..10 {
        if game.step(true, Some(at(1, 1))) != TurnOutcome::NoOp {
            moves += 1;
        }
    }
    assert_eq!(moves, 1);
    assert_eq!(game.state, GameState::PlayerTurn(2));
    assert_eq!(game.board.get(1, 1), Ok(Some(Piece::X)));
    assert!(game.mouse_is_held);
}

#[test]
fn held_button_dragged_over_other_squares_makes_one_move() {
    let mut game = Game::new();
    assert_eq!(game.step(true, Some(at(0, 0))), TurnOutcome::Moved(0, 0, Piece::X));
    assert_eq!(game.step(true, Some(at(1, 0))), TurnOutcome::NoOp);
    assert_eq!(game.step(true, Some(at(2, 2))), TurnOutcome::NoOp);
    assert_eq!(game.board.get(1, 0), Ok(None));
    assert_eq!(game.board.get(2, 2), Ok(None));
    assert_eq!(game.state, GameState::PlayerTurn(2));
}

#[test]
fn release_then_press_makes_the_next_move() {
    let mut game = Game::new();
    assert_eq!(game.step(true, Some(at(0, 0))), TurnOutcome::Moved(0, 0, Piece::X));
    assert_eq!(game.step(false, Some(at(1, 0))), TurnOutcome::NoOp);
    assert!(!game.mouse_is_held);
    assert_eq!(game.step(true, Some(at(1, 0))), TurnOutcome::Moved(1, 0, Piece::O));
    assert_eq!(game.state, GameState::PlayerTurn(1));
}

#[test]
fn press_without_pointer_or_off_the_board_is_consumed() {
    let mut game = Game::new();
    assert_eq!(game.step(true, None), TurnOutcome::NoOp);
    assert!(game.mouse_is_held);
    assert_eq!(game.step(true, Some(at(0, 0))), TurnOutcome::NoOp);
    assert_eq!(game.board.get(0, 0), Ok(None));
    assert_eq!(game.step(false, None), TurnOutcome::NoOp);
    assert_eq!(game.step(true, Some((30, 2))), TurnOutcome::NoOp);
    assert!(game.mouse_is_held);
    assert_eq!(game.state, GameState::PlayerTurn(1));
    assert_eq!(game.board.cells, [None; 9]);
}

#[test]
fn polled_game_reaches_a_win() {
    let mut game = Game::new();
    let clicks = [(0, 0), (1, 0), (1, 1), (2, 0)];
    for &(col, row) in &clicks {
        assert!(matches!(game.step(true, Some(at(col, row))), TurnOutcome::Moved(..)));
        assert_eq!(game.step(false, None), TurnOutcome::NoOp);
    }
    assert_eq!(game.step(true, Some(at(2, 2))), TurnOutcome::Win(1));
    assert_eq!(game.state, GameState::PlayerWon(1));
}

#[test]
fn get_click_on_square_reports_a_fresh_press_only() {
    let mut game = Game::new();
    assert_eq!(get_click_on_square(&mut game, false, Some((3, 3))), None);
    assert!(!game.mouse_is_held);
    assert_eq!(get_click_on_square(&mut game, true, Some((9, 17))), Some((1, 2)));
    assert!(game.mouse_is_held);
    assert_eq!(get_click_on_square(&mut game, true, Some((9, 17))), None);
    assert!(game.mouse_is_held);
    game.mouse_is_held = false;
    assert_eq!(get_click_on_square(&mut game, true, None), None);
    assert!(game.mouse_is_held);
    game.mouse_is_held = false;
    assert_eq!(get_click_on_square(&mut game, true, Some((24, 0))), None);
    assert!(game.mouse_is_held);
}

#[test]
fn do_player_turn_places_draws_and_passes_the_turn() {
    let mut game = Game::new();
    assert!(game.do_player_turn(1, true, Some(at(1, 2))));
    assert_eq!(game.board.get(1, 2), Ok(Some(Piece::X)));
    assert_eq!(game.state, GameState::PlayerTurn(2));
    assert_eq!(square_of(&game, 1, 2), flat(Piece::X.get_shape()));
    // Still held: no second turn.
    assert!(!game.do_player_turn(2, true, Some(at(0, 0))));
    assert_eq!(game.board.get(0, 0), Ok(None));
    game.mouse_is_held = false;
    // Occupied: refused, the turn stays.
    assert!(!game.do_player_turn(2, true, Some(at(1, 2))));
    assert_eq!(game.board.get(1, 2), Ok(Some(Piece::X)));
    assert_eq!(game.state, GameState::PlayerTurn(2));
    game.mouse_is_held = false;
    assert!(game.do_player_turn(2, true, Some(at(0, 0))));
    assert_eq!(game.board.get(0, 0), Ok(Some(Piece::O)));
    assert_eq!(game.state, GameState::PlayerTurn(1));
}

#[test]
fn check_win_ends_the_game_for_the_owner_of_the_line() {
    let mut game = Game::new();
    game.check_win();
    assert_eq!(game.state, GameState::PlayerTurn(1));
    for row in 0..3 {
        assert_eq!(game.board.place(2, row, Piece::O), Ok(()));
    }
    game.check_win();
    assert_eq!(game.state, GameState::PlayerWon(2));
}

#[test]
fn do_player_turn_makes_no_move_on_a_won_game() {
    let mut game = Game::new();
    for &(col, row) in &[(0, 0), (1, 0), (0, 1), (1, 1)] {
        click(&mut game, col, row);
    }
    assert_eq!(click(&mut game, 0, 2), TurnOutcome::Win(1));
    assert_eq!(game.state, GameState::PlayerWon(1));
    let board = game.board.cells;
    let buffer = game.buffer.clone();
    for num in 1..=2u8 {
        game.mouse_is_held = false;
        // A fresh press over the empty cell (2,2).
        assert!(!game.do_player_turn(num, true, Some(at(2, 2))));
        assert!(game.mouse_is_held);
        assert_eq!(game.state, GameState::PlayerWon(1));
        assert_eq!(game.board.cells, board);
        assert_eq!(game.buffer, buffer);
        game.mouse_is_held = false;
        // A fresh press over the occupied cell (0,0).
        assert!(!game.do_player_turn(num, true, Some(at(0, 0))));
        assert_eq!(game.state, GameState::PlayerWon(1));
        assert_eq!(game.board.cells, board);
        assert_eq!(game.buffer, buffer);
    }
}

#[test]
fn do_player_turn_makes_no_move_out_of_turn() {
    let mut game = Game::new();
    let buffer = game.buffer.clone();
    assert!(!game.do_player_turn(2, true, Some(at(1, 1))));
    assert!(game.mouse_is_held);
    assert_eq!(game.state, GameState::PlayerTurn(1));
    assert_eq!(game.board.cells, [None; 9]);
    assert_eq!(game.buffer, buffer);
    game.mouse_is_held = false;
    assert!(game.do_player_turn(1, true, Some(at(1, 1))));
    assert_eq!(game.board.get(1, 1), Ok(Some(Piece::X)));
    assert_eq!(game.state, GameState::PlayerTurn(2));
    game.mouse_is_held = false;
    assert!(!game.do_player_turn(1, true, Some(at(0, 0))));
    assert_eq!(game.board.get(0, 0), Ok(None));
    assert_eq!(game.state, GameState::PlayerTurn(2));
}
