//! The turn engine: whose turn it is, how a polled mouse press becomes a
//! move, and when the game is won.

use vstd::prelude::*;
use crate::board::{Board, Grid, cell, empty_grid, placed, winner};
use crate::piece::{Piece, Px, glyph};
use crate::render::{draw_shape, drawn};

verus! {

/// A player: its number, 1 or 2, and the piece it plays.
#[derive(Clone, Copy, Debug, PartialEq, Eq)]
pub struct Player {
    pub num: u8,
    pub piece: Piece,
}

/// Where the game stands. The number is that of a player, 1 or 2.
#[derive(Clone, Copy, Debug, PartialEq, Eq, Structural)]
pub enum GameState {
    /// The game is on and waits for a move of this player.
    PlayerTurn(u8),
    /// This player has won; no further move is accepted.
    PlayerWon(u8),
}

/// What a click, or a polled frame, did to the game.
#[derive(Clone, Copy, Debug, PartialEq, Eq)]
pub enum TurnOutcome {
    /// Nothing changed on the board.
    NoOp,
    /// The piece was placed at (column, row) and the turn passed on.
    Moved(usize, usize, Piece),
    /// The move completed a line; the game is won by this player.
    Win(u8),
}

/// The piece of player `num`: player 1 plays X, player 2 plays O.
pub open spec fn piece_of(num: u8) -> Piece {
    if num == 1 {
        Piece::X
    } else {
        Piece::O
    }
}

/// The number of the player who plays `piece`.
pub open spec fn owner_of(piece: Piece) -> u8 {
    match piece {
        Piece::X => 1,
        Piece::O => 2,
    }
}

/// The player who moves after player `num`.
pub open spec fn other_player(num: u8) -> u8 {
    if num == 1 {
        2
    } else {
        1
    }
}

pub open spec fn is_player(num: u8) -> bool {
    num == 1 || num == 2
}

impl Player {
    /// The player with this number, which is 1 or 2.
    pub fn numbered(num: u8) -> (p: Player)
        requires
            is_player(num),
        ensures
            p == (Player { num, piece: piece_of(num) }),
    {
        if num == 1 {
            Player { num, piece: Piece::X }
        } else {
            Player { num, piece: Piece::O }
        }
    }

    /// The player who plays `piece`.
    pub fn owning(piece: Piece) -> (p: Player)
        ensures
            p == (Player { num: owner_of(piece), piece }),
            is_player(p.num),
            piece_of(p.num) == piece,
    {
        match piece {
            Piece::X => Player { num: 1, piece },
            Piece::O => Player { num: 2, piece },
        }
    }
}

/// The game as a mathematical value.
pub struct GameModel {
    /// The frame buffer, 24 by 24 pixels, row-major.
    pub buffer: Seq<Px>,
    pub state: GameState,
    pub board: Grid,
    /// Whether the mouse button was down when it was last observed.
    pub mouse_is_held: bool,
}

impl GameModel {
    /// The buffer and the board have their sizes, and the state names a player.
    pub open spec fn wf(self) -> bool {
        &&& self.buffer.len() == 576
        &&& self.board.len() == 9
        &&& match self.state {
            GameState::PlayerTurn(n) => is_player(n),
            GameState::PlayerWon(n) => is_player(n),
        }
    }
}

/// The game at its start: a black buffer, an empty board, player 1 to move.
pub open spec fn initial_game() -> GameModel {
    GameModel {
        buffer: Seq::new(576, |i: int| crate::piece::PIXEL_BLACK),
        state: GameState::PlayerTurn(1),
        board: empty_grid(),
        mouse_is_held: false,
    }
}

/// The board square under a position given in buffer pixels, if there is one.
pub open spec fn square_at(screen_x: usize, screen_y: usize) -> Option<(usize, usize)> {
    if screen_x / 8 < 3 && screen_y / 8 < 3 {
        Some(((screen_x / 8) as usize, (screen_y / 8) as usize))
    } else {
        None
    }
}

/// The square that a poll of the mouse selects: the button must be down
/// without having been held, and the pointer must be over a square.
pub open spec fn click_square(held: bool, button_down: bool, mouse_pos: Option<(usize, usize)>)
    -> Option<(usize, usize)> {
    if held || !button_down {
        None
    } else {
        match mouse_pos {
            Some((screen_x, screen_y)) => square_at(screen_x, screen_y),
            None => None,
        }
    }
}

/// The game after the press of the button, if any, has been noted.
pub open spec fn press_noted(m: GameModel, button_down: bool) -> GameModel {
    GameModel { mouse_is_held: m.mouse_is_held || button_down, ..m }
}

/// The game after the release of the button, if any, has been noted.
pub open spec fn release_noted(m: GameModel, button_down: bool) -> GameModel {
    GameModel { mouse_is_held: m.mouse_is_held && button_down, ..m }
}

/// The game after player `num` has put its piece on the empty cell at
/// (`col`, `row`): the piece is on the board, its glyph is in the buffer and
/// the turn has passed to the other player.
pub open spec fn move_applied(m: GameModel, num: u8, col: usize, row: usize) -> GameModel {
    GameModel {
        buffer: drawn(m.buffer, glyph(piece_of(num)), col as int, row as int),
        state: GameState::PlayerTurn(other_player(num)),
        board: placed(m.board, col as int, row as int, piece_of(num)),
        mouse_is_held: m.mouse_is_held,
    }
}

/// The game after the board has been searched for a filled line: won by the
/// owner of the winning piece if there is one, unchanged if not.
pub open spec fn win_checked(m: GameModel) -> GameModel {
    match winner(m.board) {
        Some(piece) => GameModel { state: GameState::PlayerWon(owner_of(piece)), ..m },
        None => m,
    }
}

/// One polled turn of player `num`: the game afterwards, and whether the
/// player moved. The press is noted in any case. The player moves only when
/// the game waits for this very player, on a fresh press over an empty
/// cell; a game that is won, or that waits for the other player, keeps its
/// board, its buffer and its state.
pub open spec fn turn_result(
    m: GameModel,
    num: u8,
    button_down: bool,
    mouse_pos: Option<(usize, usize)>,
) -> (GameModel, bool) {
    let noted = press_noted(m, button_down);
    match click_square(m.mouse_is_held, button_down, mouse_pos) {
        Some((col, row)) => if m.state == GameState::PlayerTurn(num) && cell(
            m.board,
            col as int,
            row as int,
        ) is None {
            (move_applied(noted, num, col, row), true)
        } else {
            (noted, false)
        },
        None => (noted, false),
    }
}

/// A click at a position given in buffer pixels: the game afterwards, and
/// the outcome. A click off the board, on an occupied cell or after the game
/// is won changes nothing.
pub open spec fn click_result(m: GameModel, screen_x: usize, screen_y: usize) -> (
    GameModel,
    TurnOutcome,
) {
    match (square_at(screen_x, screen_y), m.state) {
        (Some((col, row)), GameState::PlayerTurn(num)) => if cell(m.board, col as int, row as int)
            is Some {
            (m, TurnOutcome::NoOp)
        } else {
            let after = win_checked(move_applied(m, num, col, row));
            match after.state {
                GameState::PlayerWon(w) => (after, TurnOutcome::Win(w)),
                GameState::PlayerTurn(_) => (after, TurnOutcome::Moved(col, row, piece_of(num))),
            }
        },
        _ => (m, TurnOutcome::NoOp),
    }
}

/// One polled frame: the game afterwards, and the outcome. A release of the
/// button is noted first. While the game is on, a press of a button that was
/// not held is noted and, with the pointer in the window, counts as a click.
pub open spec fn step_result(m: GameModel, button_down: bool, mouse_pos: Option<(usize, usize)>)
    -> (GameModel, TurnOutcome) {
    let released = release_noted(m, button_down);
    if m.state is PlayerWon || m.mouse_is_held || !button_down {
        (released, TurnOutcome::NoOp)
    } else {
        let pressed = press_noted(released, button_down);
        match mouse_pos {
            Some((screen_x, screen_y)) => click_result(pressed, screen_x, screen_y),
            None => (pressed, TurnOutcome::NoOp),
        }
    }
}

/// The game: the frame buffer, the board, the state and the debounce flag.
pub struct Game {
    pub buffer: Vec<Px>,
    pub state: GameState,
    pub board: Board,
    /// Used to tell when the mouse is pressed from when it is held.
    pub mouse_is_held: bool,
}

impl View for Game {
    type V = GameModel;

    open spec fn view(&self) -> GameModel {
        GameModel {
            buffer: self.buffer@,
            state: self.state,
            board: self.board@,
            mouse_is_held: self.mouse_is_held,
        }
    }
}

/// The board square under a position given in buffer pixels, if there is one.
pub fn square_under(screen_x: usize, screen_y: usize) -> (sq: Option<(usize, usize)>)
    ensures
        sq == square_at(screen_x, screen_y),
{
    let x: usize = screen_x / 8;
    let y: usize = screen_y / 8;
    if x >= 3 || y >= 3 {
        None
    } else {
        Some((x, y))
    }
}

/// Turns a poll of the mouse into the square that was clicked, if the poll
/// is a fresh press over the board, and notes that the button is held.
pub fn get_click_on_square(
    game: &mut Game,
    button_down: bool,
    mouse_pos: Option<(usize, usize)>,
) -> (sq: Option<(usize, usize)>)
    ensures
        sq == click_square(old(game)@.mouse_is_held, button_down, mouse_pos),
        final(game)@ == press_noted(old(game)@, button_down),
{
    if game.mouse_is_held || !button_down {
        return None;
    }
    game.mouse_is_held = true;
    match mouse_pos {
        Some((screen_x, screen_y)) => square_under(screen_x, screen_y),
        None => None,
    }
}

impl Game {
    /// A new game.
    pub fn new() -> (g: Game)
        ensures
            g@ == initial_game(),
            g@.wf(),
    {
        let g = Game {
            buffer: vec![crate::piece::PIXEL_BLACK; 576],
            state: GameState::PlayerTurn(1),
            board: Board::new(),
            mouse_is_held: false,
        };
        assert(g@.buffer =~= initial_game().buffer);
        g
    }

    /// Puts the piece of the active player `player_num` on the cell at
    /// (`col`, `row`) if it is empty, draws it and passes the turn on.
    /// Returns whether it did.
    fn try_move(&mut self, player_num: u8, col: usize, row: usize) -> (did: bool)
        requires
            old(self)@.wf(),
            old(self)@.state == GameState::PlayerTurn(player_num),
            col < 3,
            row < 3,
        ensures
            did == (cell(old(self)@.board, col as int, row as int) is None),
            did ==> final(self)@ == move_applied(old(self)@, player_num, col, row),
            !did ==> final(self)@ == old(self)@,
            final(self)@.wf(),
    {
        let player_piece = Player::numbered(player_num).piece;
        match self.board.place(col, row, player_piece) {
            Err(_) => false,
            Ok(()) => {
                draw_shape(&mut self.buffer, player_piece.get_shape(), col, row);
                self.state = GameState::PlayerTurn(
                    match player_num {
                        1 => 2,
                        _ => 1,
                    },
                );
                true
            },
        }
    }

    /// (Maybe) handles a turn of player `player_num`, given what the mouse
    /// reports. Returns whether the turn actually finished. No turn is taken
    /// once the game is won, nor by a player whose turn it is not: the press
    /// is noted and nothing else changes.
    pub fn do_player_turn(
        &mut self,
        player_num: u8,
        button_down: bool,
        mouse_pos: Option<(usize, usize)>,
    ) -> (did: bool)
        requires
            old(self)@.wf(),
            is_player(player_num),
        ensures
            final(self)@ == turn_result(old(self)@, player_num, button_down, mouse_pos).0,
            did == turn_result(old(self)@, player_num, button_down, mouse_pos).1,
            final(self)@.wf(),
            old(self)@.state != GameState::PlayerTurn(player_num) ==> !did,
            !did ==> final(self)@ == press_noted(old(self)@, button_down),
            did ==> final(self)@.state == GameState::PlayerTurn(other_player(player_num)),
    {
        let square = get_click_on_square(self, button_down, mouse_pos);
        match (square, self.state) {
            (Some((x, y)), GameState::PlayerTurn(active)) => {
                if active == player_num {
                    self.try_move(player_num, x, y)
                } else {
                    false
                }
            },
            _ => false,
        }
    }

    /// Ends the game if a line of the board is filled: the owner of the
    /// winning piece has won.
    pub fn check_win(&mut self)
        ensures
            final(self)@ == win_checked(old(self)@),
    {
        match self.board.check_win() {
            Some(piece) => self._piece_win(piece),
            None => {},
        }
    }

    fn _piece_win(&mut self, piece: Piece)
        ensures
            final(self)@ == (GameModel {
                state: GameState::PlayerWon(owner_of(piece)),
                ..old(self)@
            }),
    {
        self.state = GameState::PlayerWon(Player::owning(piece).num);
    }

    /// Handles a click at a position given in buffer pixels: maps it to a
    /// cell, places the active player's piece there if the game is on and
    /// the cell is empty, draws it, and looks for a win.
    pub fn handle_click(&mut self, screen_x: usize, screen_y: usize) -> (outcome: TurnOutcome)
        requires
            old(self)@.wf(),
        ensures
            final(self)@ == click_result(old(self)@, screen_x, screen_y).0,
            outcome == click_result(old(self)@, screen_x, screen_y).1,
            final(self)@.wf(),
            outcome is NoOp ==> final(self)@ == old(self)@,
            forall|p: u8|
                old(self)@.state == GameState::PlayerTurn(p) && outcome is Moved
                    ==> final(self)@.state == GameState::PlayerTurn(other_player(p)),
    {
        match (square_under(screen_x, screen_y), self.state) {
            (Some((col, row)), GameState::PlayerTurn(num)) => {
                if self.try_move(num, col, row) {
                    self.check_win();
                    match self.state {
                        GameState::PlayerWon(w) => TurnOutcome::Win(w),
                        GameState::PlayerTurn(_) => TurnOutcome::Moved(
                            col,
                            row,
                            Player::numbered(num).piece,
                        ),
                    }
                } else {
                    TurnOutcome::NoOp
                }
            },
            _ => TurnOutcome::NoOp,
        }
    }

    /// Runs one frame, given what the mouse reports: notes a release, and
    /// while the game is on lets the active player take its turn and looks
    /// for a win after a move.
    pub fn step(&mut self, button_down: bool, mouse_pos: Option<(usize, usize)>) -> (outcome:
        TurnOutcome)
        requires
            old(self)@.wf(),
        ensures
            final(self)@ == step_result(old(self)@, button_down, mouse_pos).0,
            outcome == step_result(old(self)@, button_down, mouse_pos).1,
            final(self)@.wf(),
            outcome is NoOp ==> final(self)@.board == old(self)@.board && final(self)@.state
                == old(self)@.state && final(self)@.buffer == old(self)@.buffer,
            forall|p: u8|
                old(self)@.state == GameState::PlayerTurn(p) && outcome is Moved
                    ==> final(self)@.state == GameState::PlayerTurn(other_player(p)),
    {
        if self.mouse_is_held && !button_down {
            self.mouse_is_held = false;
        }
        match self.state {
            GameState::PlayerTurn(player_num) => {
                let did_turn = self.do_player_turn(player_num, button_down, mouse_pos);
                if did_turn {
                    self.check_win();
                    match (self.state, mouse_pos) {
                        (GameState::PlayerWon(w), _) => TurnOutcome::Win(w),
                        (GameState::PlayerTurn(_), Some((screen_x, screen_y))) => TurnOutcome::Moved(
                            screen_x / 8,
                            screen_y / 8,
                            Player::numbered(player_num).piece,
                        ),
                        (GameState::PlayerTurn(_), None) => TurnOutcome::NoOp,
                    }
                } else {
                    TurnOutcome::NoOp
                }
            },
            GameState::PlayerWon(_) => TurnOutcome::NoOp,
        }
    }
}

} // verus!
