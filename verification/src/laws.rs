//! Properties of the game that relate several of its operations.

use vstd::prelude::*;
use crate::board::{
    BoardError,
    Grid,
    after_place,
    cell,
    empty_grid,
    in_grid,
    lemma_winner_is_first_line,
    line_piece,
    place_verdict,
    winner,
};
use crate::engine::{
    GameModel,
    GameState,
    TurnOutcome,
    click_result,
    initial_game,
    is_player,
    other_player,
    piece_of,
    press_noted,
    release_noted,
    square_at,
    step_result,
    turn_result,
    win_checked,
};
use crate::piece::{PIXEL_BLACK, Piece, Px, glyph};
use crate::render::square_start;

verus! {

/// One attempt to place a piece: column, row and piece.
pub type Placement = (int, int, Piece);

/// One poll of the mouse: whether the left button is down, and the pointer's
/// position in buffer pixels while it is over the window.
pub type Poll = (bool, Option<(usize, usize)>);

/// The grid after the placements have been attempted in order.
pub open spec fn after_placements(g: Grid, moves: Seq<Placement>) -> Grid
    decreases moves.len(),
{
    if moves.len() == 0 {
        g
    } else {
        let m = moves.last();
        after_place(after_placements(g, moves.drop_last()), m.0, m.1, m.2)
    }
}

/// Some line of the grid holds the same piece in its three cells.
pub open spec fn has_filled_line(g: Grid) -> bool {
    exists|k: int| 0 <= k < 8 && line_piece(g, k) is Some
}

/// The game after the polls have been handled in order.
pub open spec fn after_polls(m: GameModel, polls: Seq<Poll>) -> GameModel
    decreases polls.len(),
{
    if polls.len() == 0 {
        m
    } else {
        after_polls(step_result(m, polls[0].0, polls[0].1).0, polls.drop_first())
    }
}

/// How many of the polls, handled in order, led to a move.
pub open spec fn moves_made(m: GameModel, polls: Seq<Poll>) -> nat
    decreases polls.len(),
{
    if polls.len() == 0 {
        0
    } else {
        let r = step_result(m, polls[0].0, polls[0].1);
        let here: nat = if r.1 is NoOp {
            0
        } else {
            1
        };
        here + moves_made(r.0, polls.drop_first())
    }
}

/// The button is down in every poll.
pub open spec fn button_held_throughout(polls: Seq<Poll>) -> bool {
    forall|i: int| 0 <= i < polls.len() ==> (#[trigger] polls[i]).0
}

/// The empty board has no winner.
pub proof fn empty_board_has_no_winner()
    ensures
        winner(empty_grid()) is None,
{
    lemma_winner_is_first_line(empty_grid());
}

/// Placements keep a grid of nine cells at nine cells.
pub proof fn placements_keep_size(g: Grid, moves: Seq<Placement>)
    requires
        g.len() == 9,
    ensures
        after_placements(g, moves).len() == 9,
    decreases moves.len(),
{
    if moves.len() > 0 {
        placements_keep_size(g, moves.drop_last());
    }
}

/// Whatever placements are attempted on the empty board, after each of them
/// there is no winner until some line holds the same piece in its three
/// cells, and there is one from then on.
pub proof fn no_winner_until_line_filled(moves: Seq<Placement>, n: int)
    requires
        0 <= n <= moves.len(),
    ensures
        winner(after_placements(empty_grid(), moves.take(n))) is None <==> !has_filled_line(
            after_placements(empty_grid(), moves.take(n)),
        ),
{
    lemma_winner_is_first_line(after_placements(empty_grid(), moves.take(n)));
}

/// A cell that holds a piece holds the same piece after any further
/// placements.
pub proof fn occupied_cells_stay(g: Grid, moves: Seq<Placement>, col: int, row: int)
    requires
        g.len() == 9,
        in_grid(col, row),
        cell(g, col, row) is Some,
    ensures
        cell(after_placements(g, moves), col, row) == cell(g, col, row),
    decreases moves.len(),
{
    if moves.len() > 0 {
        occupied_cells_stay(g, moves.drop_last(), col, row);
        placements_keep_size(g, moves.drop_last());
    }
}

/// A placement into an occupied cell is refused as such and changes
/// nothing on the board.
pub proof fn placing_on_occupied_changes_nothing(g: Grid, col: int, row: int, piece: Piece)
    requires
        g.len() == 9,
        in_grid(col, row),
        cell(g, col, row) is Some,
    ensures
        place_verdict(g, col, row) == Err::<(), BoardError>(BoardError::CellOccupied),
        after_place(g, col, row, piece) == g,
{
}

/// A click on an occupied cell changes nothing: not the board, not the
/// buffer, and the turn stays with the same player.
pub proof fn click_on_occupied_is_ignored(m: GameModel, screen_x: usize, screen_y: usize)
    requires
        m.wf(),
        square_at(screen_x, screen_y) is Some,
        cell(
            m.board,
            square_at(screen_x, screen_y).unwrap().0 as int,
            square_at(screen_x, screen_y).unwrap().1 as int,
        ) is Some,
    ensures
        click_result(m, screen_x, screen_y) == (m, TurnOutcome::NoOp),
{
}

/// A press over an occupied cell is consumed without a move: the board, the
/// buffer and the state stay, so the turn does not advance.
pub proof fn press_on_occupied_is_ignored(m: GameModel, screen_x: usize, screen_y: usize)
    requires
        m.wf(),
        square_at(screen_x, screen_y) is Some,
        cell(
            m.board,
            square_at(screen_x, screen_y).unwrap().0 as int,
            square_at(screen_x, screen_y).unwrap().1 as int,
        ) is Some,
    ensures
        step_result(m, true, Some((screen_x, screen_y))).1 == TurnOutcome::NoOp,
        step_result(m, true, Some((screen_x, screen_y))).0.board == m.board,
        step_result(m, true, Some((screen_x, screen_y))).0.buffer == m.buffer,
        step_result(m, true, Some((screen_x, screen_y))).0.state == m.state,
{
}

/// A click outside the board changes nothing.
pub proof fn click_off_board_is_ignored(m: GameModel, screen_x: usize, screen_y: usize)
    requires
        screen_x >= 24 || screen_y >= 24,
    ensures
        click_result(m, screen_x, screen_y) == (m, TurnOutcome::NoOp),
{
}

/// Once a player has won, no click changes the game.
pub proof fn won_game_accepts_no_move(m: GameModel, screen_x: usize, screen_y: usize)
    requires
        m.state is PlayerWon,
    ensures
        click_result(m, screen_x, screen_y) == (m, TurnOutcome::NoOp),
{
}

/// After an accepted move of player `p` that wins nothing, it is the other
/// player's turn, and the two players differ.
pub proof fn turns_alternate(m: GameModel, screen_x: usize, screen_y: usize, p: u8)
    requires
        m.wf(),
        m.state == GameState::PlayerTurn(p),
        click_result(m, screen_x, screen_y).1 is Moved,
    ensures
        click_result(m, screen_x, screen_y).0.state == GameState::PlayerTurn(other_player(p)),
        click_result(m, screen_x, screen_y).1 == TurnOutcome::Moved(
            square_at(screen_x, screen_y).unwrap().0,
            square_at(screen_x, screen_y).unwrap().1,
            piece_of(p),
        ),
        other_player(p) != p,
        is_player(other_player(p)),
        other_player(other_player(p)) == p,
{
}

/// After a frame in which player `p` made a move that wins nothing, it is
/// the other player's turn.
pub proof fn turns_alternate_across_frames(
    m: GameModel,
    button_down: bool,
    mouse_pos: Option<(usize, usize)>,
    p: u8,
)
    requires
        m.wf(),
        m.state == GameState::PlayerTurn(p),
        step_result(m, button_down, mouse_pos).1 is Moved,
    ensures
        step_result(m, button_down, mouse_pos).0.state == GameState::PlayerTurn(other_player(p)),
{
}

/// A frame in which it is player `p`'s turn is a release noted, then a
/// polled turn of `p`, then a search for a win if `p` moved.
pub proof fn frame_is_turn_then_win_check(
    m: GameModel,
    button_down: bool,
    mouse_pos: Option<(usize, usize)>,
    p: u8,
)
    requires
        m.state == GameState::PlayerTurn(p),
    ensures
        ({
            let turn = turn_result(release_noted(m, button_down), p, button_down, mouse_pos);
            step_result(m, button_down, mouse_pos).0 == if turn.1 {
                win_checked(turn.0)
            } else {
                turn.0
            }
        }),
        step_result(m, button_down, mouse_pos).1 is NoOp <==> !turn_result(
            release_noted(m, button_down),
            p,
            button_down,
            mouse_pos,
        ).1,
{
}

/// Once a player has won, a polled turn of either player makes no move:
/// the press is noted, and the board, the buffer and the state stay.
pub proof fn won_game_takes_no_turn(
    m: GameModel,
    num: u8,
    button_down: bool,
    mouse_pos: Option<(usize, usize)>,
)
    requires
        m.state is PlayerWon,
    ensures
        turn_result(m, num, button_down, mouse_pos) == (press_noted(m, button_down), false),
        turn_result(m, num, button_down, mouse_pos).0.state == m.state,
        turn_result(m, num, button_down, mouse_pos).0.board == m.board,
        turn_result(m, num, button_down, mouse_pos).0.buffer == m.buffer,
{
}

/// A player whose turn it is not makes no move: the press is noted, and the
/// board, the buffer and the state stay.
pub proof fn out_of_turn_player_makes_no_move(
    m: GameModel,
    num: u8,
    button_down: bool,
    mouse_pos: Option<(usize, usize)>,
)
    requires
        m.state != GameState::PlayerTurn(num),
    ensures
        turn_result(m, num, button_down, mouse_pos) == (press_noted(m, button_down), false),
{
}

/// A polled turn that made a move was taken by the active player, on an
/// empty cell, and passed the turn to the other player.
pub proof fn polled_move_is_by_the_active_player(
    m: GameModel,
    num: u8,
    button_down: bool,
    mouse_pos: Option<(usize, usize)>,
)
    requires
        turn_result(m, num, button_down, mouse_pos).1,
    ensures
        m.state == GameState::PlayerTurn(num),
        turn_result(m, num, button_down, mouse_pos).0.state == GameState::PlayerTurn(
            other_player(num),
        ),
        button_down && !m.mouse_is_held,
{
}

/// A click keeps a well-formed game well-formed.
pub proof fn click_keeps_wf(m: GameModel, screen_x: usize, screen_y: usize)
    requires
        m.wf(),
    ensures
        click_result(m, screen_x, screen_y).0.wf(),
{
}

/// A frame keeps a well-formed game well-formed, and the game starts
/// well-formed.
pub proof fn step_keeps_wf(m: GameModel, button_down: bool, mouse_pos: Option<(usize, usize)>)
    requires
        m.wf(),
    ensures
        step_result(m, button_down, mouse_pos).0.wf(),
        initial_game().wf(),
{
}

/// The buffer shows the board: the square of every occupied cell holds the
/// glyph of its piece, and the square of every empty cell is black.
pub open spec fn shows(buffer: Seq<Px>, board: Grid) -> bool {
    forall|col: int, row: int, r: int, c: int|
        in_grid(col, row) && 0 <= r < 8 && 0 <= c < 8 ==> #[trigger] buffer[square_start(col, row)
            + r * 24 + c] == match cell(board, col, row) {
            Some(piece) => glyph(piece)[r][c],
            None => PIXEL_BLACK,
        }
}

/// The buffer shows the board when the game starts and after every click.
pub proof fn buffer_shows_board(m: GameModel, screen_x: usize, screen_y: usize)
    requires
        m.wf(),
        shows(m.buffer, m.board),
    ensures
        shows(initial_game().buffer, initial_game().board),
        shows(click_result(m, screen_x, screen_y).0.buffer, click_result(m, screen_x, screen_y).0.board),
{
    let after = click_result(m, screen_x, screen_y).0;
    assert forall|col: int, row: int, r: int, c: int|
        in_grid(col, row) && 0 <= r < 8 && 0 <= c < 8 implies #[trigger] after.buffer[square_start(
        col,
        row,
    ) + r * 24 + c] == match cell(after.board, col, row) {
        Some(piece) => glyph(piece)[r][c],
        None => PIXEL_BLACK,
    } by {
        let i = square_start(col, row) + r * 24 + c;
        assert(m.buffer[i] == match cell(m.board, col, row) {
            Some(piece) => glyph(piece)[r][c],
            None => PIXEL_BLACK,
        });
        if after.board != m.board {
            let sq = square_at(screen_x, screen_y).unwrap();
            let d = i - square_start(sq.0 as int, sq.1 as int);
            if col == sq.0 && row == sq.1 {
                assert(d == r * 24 + c);
                assert(d / 24 == r && d % 24 == c);
            } else if col != sq.0 {
                assert(d % 24 >= 8);
            } else {
                assert(d < 0 || d / 24 >= 8);
            }
        }
    }
}

/// A frame keeps the buffer showing the board.
pub proof fn frames_keep_buffer_showing_board(
    m: GameModel,
    button_down: bool,
    mouse_pos: Option<(usize, usize)>,
)
    requires
        m.wf(),
        shows(m.buffer, m.board),
    ensures
        shows(
            step_result(m, button_down, mouse_pos).0.buffer,
            step_result(m, button_down, mouse_pos).0.board,
        ),
{
    if let Some((screen_x, screen_y)) = mouse_pos {
        buffer_shows_board(press_noted(release_noted(m, button_down), button_down), screen_x, screen_y);
    }
}

/// Whatever the mouse does, a game that is well-formed and whose buffer
/// shows its board stays so; this holds of every game that is played from
/// the start.
pub proof fn polls_keep_game_sound(m: GameModel, polls: Seq<Poll>)
    requires
        m.wf(),
        shows(m.buffer, m.board),
    ensures
        after_polls(m, polls).wf(),
        shows(after_polls(m, polls).buffer, after_polls(m, polls).board),
    decreases polls.len(),
{
    if polls.len() > 0 {
        frames_keep_buffer_showing_board(m, polls[0].0, polls[0].1);
        polls_keep_game_sound(step_result(m, polls[0].0, polls[0].1).0, polls.drop_first());
    }
}

/// Once a player has won, the state, the board and the buffer stay as they
/// are whatever the mouse does, and no further move is made.
pub proof fn won_game_stays_won(m: GameModel, polls: Seq<Poll>)
    requires
        m.state is PlayerWon,
    ensures
        after_polls(m, polls).state == m.state,
        after_polls(m, polls).board == m.board,
        after_polls(m, polls).buffer == m.buffer,
        moves_made(m, polls) == 0,
    decreases polls.len(),
{
    if polls.len() > 0 {
        won_game_stays_won(step_result(m, polls[0].0, polls[0].1).0, polls.drop_first());
    }
}

/// While the button stays down after it was seen down, or once the game is
/// won, polls change nothing and lead to no move.
pub proof fn held_button_is_ignored(m: GameModel, polls: Seq<Poll>)
    requires
        m.mouse_is_held || m.state is PlayerWon,
        button_held_throughout(polls),
    ensures
        after_polls(m, polls) == m,
        moves_made(m, polls) == 0,
    decreases polls.len(),
{
    if polls.len() > 0 {
        assert(polls[0].0);
        assert(step_result(m, polls[0].0, polls[0].1).0 == m);
        assert forall|i: int| 0 <= i < polls.drop_first().len() implies (
        #[trigger] polls.drop_first()[i]).0 by {
            assert(polls[i + 1].0);
        }
        held_button_is_ignored(m, polls.drop_first());
    }
}

/// Holding the button down across any number of polls has the effect of the
/// first poll alone: the game ends where the first poll left it, and the
/// polls lead to one move if the first one did and to none if it did not.
pub proof fn held_button_moves_once(m: GameModel, polls: Seq<Poll>)
    requires
        polls.len() >= 1,
        button_held_throughout(polls),
    ensures
        after_polls(m, polls) == step_result(m, polls[0].0, polls[0].1).0,
        moves_made(m, polls) == if step_result(m, polls[0].0, polls[0].1).1 is NoOp {
            0nat
        } else {
            1nat
        },
        moves_made(m, polls) <= 1,
{
    let first = step_result(m, polls[0].0, polls[0].1);
    assert(polls[0].0);
    assert(first.0.mouse_is_held || first.0.state is PlayerWon);
    assert forall|i: int| 0 <= i < polls.drop_first().len() implies (#[trigger] polls.drop_first()[i]).0 by {
        assert(polls[i + 1].0);
    }
    held_button_is_ignored(first.0, polls.drop_first());
}

} // verus!
