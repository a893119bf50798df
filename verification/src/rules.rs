//! The rules of the game as a state machine over mathematical values, and
//! the laws that hold of every game played by them.

use crate::board::{
    column_full, count_upto, drop_row, empty_grid, has_four, lemma_count_place, lemma_drop_row,
    lemma_few_pieces_no_four, lemma_full_iff_top, lemma_place_settled, lemma_place_winner,
    lemma_winner_iff_four, occupied, pieces, place, settled, well_shaped, winner_of, Grid,
};
use crate::player::{MoveError, PLAYER};
use vstd::prelude::*;

verus! {

/// What a game is, to its contracts.
pub struct GameView {
    /// The cells, `board[row][col]`, row 0 at the top.
    pub board: Grid,
    /// Number of pieces placed so far.
    pub move_count: nat,
    /// Whose turn it is; once the game is over, who moved last.
    pub current_player: PLAYER,
    /// The game is won or drawn.
    pub is_finished: bool,
    /// The player with a four-in-a-row, `Nobody` while there is none.
    pub winner: PLAYER,
}

impl GameView {
    /// The state before the first move: an empty board, `One` to move.
    pub open spec fn initial() -> GameView {
        GameView {
            board: empty_grid(),
            move_count: 0,
            current_player: PLAYER::One,
            is_finished: false,
            winner: PLAYER::Nobody,
        }
    }

    /// What holds of every state that play can reach.
    pub open spec fn valid(self) -> bool {
        &&& well_shaped(self.board)
        &&& settled(self.board)
        &&& self.move_count <= 42
        &&& pieces(self.board, PLAYER::One) == (self.move_count + 1) / 2
        &&& pieces(self.board, PLAYER::Two) == self.move_count / 2
        &&& self.current_player != PLAYER::Nobody
        &&& (self.current_player == PLAYER::One) == (if self.is_finished {
            self.move_count % 2 == 1
        } else {
            self.move_count % 2 == 0
        })
        &&& self.winner == winner_of(self.board)
        &&& self.winner != PLAYER::Nobody ==> self.winner == self.current_player
        &&& self.is_finished <==> (self.winner != PLAYER::Nobody || self.move_count == 42)
    }

    /// Why a move into `col` is refused, `None` when it is accepted. A
    /// finished game refuses every move; then a column off the board is
    /// refused; then a column without an empty cell.
    pub open spec fn move_error(self, col: int) -> Option<MoveError> {
        if self.is_finished {
            Some(MoveError::GameFinished)
        } else if !(0 <= col < 7) {
            Some(MoveError::InvalidColumn)
        } else if drop_row(self.board, col) < 0 {
            Some(MoveError::ColumnFull)
        } else {
            None
        }
    }

    /// The state after an accepted move into `col`. The piece of the
    /// player to move comes to rest in the lowest empty cell. A
    /// four-in-a-row ends the game with a winner, a full board ends it
    /// without one, and otherwise the turn passes to the opponent.
    pub open spec fn after_move(self, col: int) -> GameView
        recommends
            self.move_error(col) is None,
    {
        let board = place(self.board, drop_row(self.board, col), col, self.current_player);
        let move_count = self.move_count + 1;
        let winner = winner_of(board);
        if winner != PLAYER::Nobody {
            GameView {
                board,
                move_count,
                current_player: self.current_player,
                is_finished: true,
                winner,
            }
        } else if move_count == 42 {
            GameView {
                board,
                move_count,
                current_player: self.current_player,
                is_finished: true,
                winner: PLAYER::Nobody,
            }
        } else {
            GameView {
                board,
                move_count,
                current_player: self.current_player.spec_opponent(),
                is_finished: false,
                winner: PLAYER::Nobody,
            }
        }
    }

    /// Why the choice of the column numbered `choice`, counted from 1 at
    /// the left as players do, is refused; `None` when it is accepted. A
    /// number that names no column is refused before anything else.
    pub open spec fn choice_error(self, choice: int) -> Option<MoveError> {
        if !(1 <= choice <= 7) {
            Some(MoveError::InvalidColumn)
        } else {
            self.move_error(choice - 1)
        }
    }

    /// The state after an attempt to move into `col`: a refused move
    /// changes nothing.
    pub open spec fn play(self, col: int) -> GameView {
        if self.move_error(col) is None {
            self.after_move(col)
        } else {
            self
        }
    }

    /// The state after the attempts `cols`, made in order.
    pub open spec fn play_all(self, cols: Seq<int>) -> GameView
        decreases cols.len(),
    {
        if cols.len() == 0 {
            self
        } else {
            self.play_all(cols.drop_last()).play(cols.last())
        }
    }

    /// How many of the attempts `cols`, made in order, are accepted.
    pub open spec fn accepted(self, cols: Seq<int>) -> nat
        decreases cols.len(),
    {
        if cols.len() == 0 {
            0
        } else if self.play_all(cols.drop_last()).move_error(cols.last()) is None {
            self.accepted(cols.drop_last()) + 1
        } else {
            self.accepted(cols.drop_last())
        }
    }
}

proof fn lemma_empty_count(player: PLAYER, n: int)
    requires
        player != PLAYER::Nobody,
        n <= 42,
    ensures
        count_upto(empty_grid(), player, n) == 0,
    decreases n,
{
    if n > 0 {
        lemma_empty_count(player, n - 1);
    }
}

/// A new game is in a valid state.
pub proof fn law_initial_valid()
    ensures
        GameView::initial().valid(),
{
    let grid = empty_grid();
    lemma_empty_count(PLAYER::One, 42);
    lemma_empty_count(PLAYER::Two, 42);
    lemma_few_pieces_no_four(grid);
}

/// An accepted move leads from a valid state to a valid state.
pub proof fn law_move_keeps_valid(state: GameView, col: int)
    requires
        state.valid(),
        state.move_error(col) is None,
    ensures
        state.after_move(col).valid(),
{
    let row = drop_row(state.board, col);
    let player = state.current_player;
    lemma_drop_row(state.board, col);
    lemma_place_settled(state.board, col, player);
    lemma_count_place(state.board, row, col, player, PLAYER::One, 42);
    lemma_count_place(state.board, row, col, player, PLAYER::Two, 42);
    lemma_winner_iff_four(state.board);
    lemma_place_winner(state.board, row, col, player);
}

/// Whatever columns are tried, in whatever order, the state stays valid.
pub proof fn law_play_keeps_valid(state: GameView, cols: Seq<int>)
    requires
        state.valid(),
    ensures
        state.play_all(cols).valid(),
    decreases cols.len(),
{
    if cols.len() > 0 {
        law_play_keeps_valid(state, cols.drop_last());
        let before = state.play_all(cols.drop_last());
        if before.move_error(cols.last()) is None {
            law_move_keeps_valid(before, cols.last());
        }
    }
}

/// The move count is the number of pieces on the board, and the players
/// have placed them in turn.
pub proof fn law_move_count_is_pieces(state: GameView)
    requires
        state.valid(),
    ensures
        occupied(state.board) == state.move_count,
        pieces(state.board, PLAYER::One) - pieces(state.board, PLAYER::Two) == state.move_count % 2,
{
}

/// A winner is recorded exactly when a four-in-a-row stands on the board,
/// and the game is over exactly when it is won or the board is full.
pub proof fn law_winner_iff_four(state: GameView)
    requires
        state.valid(),
    ensures
        state.winner != PLAYER::Nobody <==> has_four(state.board),
        state.is_finished <==> (has_four(state.board) || occupied(state.board) == 42),
{
    lemma_winner_iff_four(state.board);
}

/// After any attempts the move count has grown by the number of accepted
/// moves, so in a game played from the start it is that number, and it
/// never exceeds 42.
pub proof fn law_move_count_counts_accepted(state: GameView, cols: Seq<int>)
    requires
        state.valid(),
    ensures
        state.play_all(cols).move_count == state.move_count + state.accepted(cols),
        state.play_all(cols).move_count <= 42,
        GameView::initial().play_all(cols).move_count == GameView::initial().accepted(cols),
{
    law_play_keeps_valid(state, cols);
    lemma_count_grows(state, cols);
    lemma_count_grows(GameView::initial(), cols);
}

proof fn lemma_count_grows(state: GameView, cols: Seq<int>)
    ensures
        state.play_all(cols).move_count == state.move_count + state.accepted(cols),
    decreases cols.len(),
{
    if cols.len() > 0 {
        lemma_count_grows(state, cols.drop_last());
    }
}

/// A refused move is refused for exactly one reason, which the state and
/// the column determine: a finished game refuses every move; an
/// unfinished one refuses a column off the board, and a column whose top
/// cell is occupied.
pub proof fn law_refusals(state: GameView, col: int)
    requires
        state.valid(),
    ensures
        state.is_finished ==> state.move_error(col) == Some(MoveError::GameFinished),
        !state.is_finished && !(0 <= col < 7)
            ==> state.move_error(col) == Some(MoveError::InvalidColumn),
        !state.is_finished && 0 <= col < 7 && state.board[0][col] != PLAYER::Nobody
            ==> state.move_error(col) == Some(MoveError::ColumnFull),
        !state.is_finished && 0 <= col < 7 && state.board[0][col] == PLAYER::Nobody
            ==> state.move_error(col) is None,
        state.move_error(col) is Some ==> state.play(col) == state,
        0 <= col < 7
            ==> (column_full(state.board, col) <==> state.board[0][col] != PLAYER::Nobody),
{
    lemma_drop_row(state.board, col);
    if 0 <= col < 7 {
        lemma_full_iff_top(state.board, col);
    }
}

/// A finished game never changes again, whatever columns are tried.
pub proof fn law_finished_is_final(state: GameView, cols: Seq<int>)
    requires
        state.is_finished,
    ensures
        state.play_all(cols) == state,
        state.accepted(cols) == 0,
    decreases cols.len(),
{
    if cols.len() > 0 {
        law_finished_is_final(state, cols.drop_last());
    }
}

/// After an accepted move that does not end the game the turn has passed
/// to the opponent; after one that ends it the player who moved stays.
pub proof fn law_turns_alternate(state: GameView, col: int)
    requires
        state.valid(),
        state.move_error(col) is None,
    ensures
        !state.after_move(col).is_finished
            ==> state.after_move(col).current_player == state.current_player.spec_opponent()
                && state.after_move(col).current_player != state.current_player,
        state.after_move(col).is_finished
            ==> state.after_move(col).current_player == state.current_player,
{
}

/// The move that completes a four-in-a-row ends the game at once, and
/// its player is the winner; a move that completes none leaves the game
/// without a winner, and ends it only by filling the board.
pub proof fn law_win_is_immediate(state: GameView, col: int)
    requires
        state.valid(),
        state.move_error(col) is None,
    ensures
        !has_four(state.board),
        has_four(state.after_move(col).board)
            ==> state.after_move(col).is_finished
                && state.after_move(col).winner == state.current_player,
        !has_four(state.after_move(col).board)
            ==> state.after_move(col).winner == PLAYER::Nobody
                && (state.after_move(col).is_finished <==> state.move_count == 41),
{
    lemma_drop_row(state.board, col);
    lemma_winner_iff_four(state.board);
    lemma_place_winner(state.board, drop_row(state.board, col), col, state.current_player);
}

/// Nobody can win before the seventh move.
pub proof fn law_no_early_winner(state: GameView)
    requires
        state.valid(),
        state.move_count < 7,
    ensures
        state.winner == PLAYER::Nobody,
        !has_four(state.board),
        !state.is_finished,
{
    lemma_few_pieces_no_four(state.board);
}

} // verus!
