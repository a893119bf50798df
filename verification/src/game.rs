//! The game itself: one value that owns the board, the turn and the
//! outcome, and changes only through accepted moves.

use crate::board::{
    column_full, empty_board, grid_of, has_four, landing_row, lemma_drop_row,
    lemma_few_pieces_no_four, lemma_full_iff_top, lemma_winner_iff_four, pieces, winner_of,
    winner_on, with_piece, BOARD, BOARD_CELLS, BOARD_WIDTH,
};
use crate::player::{MoveError, PLAYER};
use crate::rules::{
    law_initial_valid, law_move_keeps_valid, law_turns_alternate, law_win_is_immediate, GameView,
};
use vstd::prelude::*;

verus! {

/// A game of Connect Four on a board of six rows and seven columns.
pub struct Game {
    current_move: u8,
    current_player: PLAYER,
    board: BOARD,
    is_finished: bool,
    winner: PLAYER,
}

impl View for Game {
    type V = GameView;

    closed spec fn view(&self) -> GameView {
        GameView {
            board: grid_of(self.board),
            move_count: self.current_move as nat,
            current_player: self.current_player,
            is_finished: self.is_finished,
            winner: self.winner,
        }
    }
}

/// Looks for a winner on a board that holds `move_count` pieces, placed
/// by the two players in turn. No scan is made before the seventh piece:
/// until then neither player has four.
fn detect_winner(board: &BOARD, move_count: u8) -> (winner: PLAYER)
    requires
        pieces(grid_of(*board), PLAYER::One) == (move_count + 1) / 2,
        pieces(grid_of(*board), PLAYER::Two) == move_count / 2,
    ensures
        winner == winner_of(grid_of(*board)),
{
    if move_count < 7 {
        proof {
            lemma_few_pieces_no_four(grid_of(*board));
        }
        return PLAYER::Nobody;
    }
    winner_on(board)
}

impl Game {
    #[verifier::type_invariant]
    spec fn well_formed(self) -> bool {
        self@.valid()
    }

    /// A new game: an empty board, no move made, `One` to move.
    pub fn default() -> (game: Game)
        ensures
            game@ == GameView::initial(),
            game@.valid(),
    {
        proof {
            law_initial_valid();
        }
        Game {
            current_move: 0,
            current_player: PLAYER::One,
            board: empty_board(),
            is_finished: false,
            winner: PLAYER::Nobody,
        }
    }

    /// Number of pieces placed so far.
    pub fn move_count(&self) -> (count: u8)
        ensures
            count == self@.move_count,
            count <= 42,
    {
        proof {
            use_type_invariant(self);
        }
        self.current_move
    }

    /// The player to move; once the game is over, the player who moved
    /// last.
    pub fn current_player(&self) -> (player: PLAYER)
        ensures
            player == self@.current_player,
            player != PLAYER::Nobody,
    {
        proof {
            use_type_invariant(self);
        }
        self.current_player
    }

    /// Whether the game is over, by a win or by a full board.
    pub fn is_finished(&self) -> (finished: bool)
        ensures
            finished == self@.is_finished,
            finished <==> (self@.winner != PLAYER::Nobody || self@.move_count == 42),
    {
        proof {
            use_type_invariant(self);
        }
        self.is_finished
    }

    /// The player who has won, `Nobody` while the game is undecided and
    /// after a draw.
    pub fn winner(&self) -> (winner: PLAYER)
        ensures
            winner == self@.winner,
            winner == winner_of(self@.board),
    {
        proof {
            use_type_invariant(self);
        }
        self.winner
    }

    /// A copy of the board, top row first.
    pub fn board(&self) -> (board: BOARD)
        ensures
            grid_of(board) == self@.board,
    {
        self.board
    }

    /// The owner of the cell `(row, col)`.
    pub fn cell(&self, row: usize, col: usize) -> (owner: PLAYER)
        requires
            row < 6,
            col < 7,
        ensures
            owner == self@.board[row as int][col as int],
    {
        self.board[row][col]
    }

    /// Looks for a four-in-a-row on the board and returns its owner,
    /// `Nobody` when there is none. The state is valid, so this is the
    /// winner that the game has recorded.
    pub fn calculate_winner(&self) -> (winner: PLAYER)
        ensures
            winner == winner_of(self@.board),
            winner == self@.winner,
            winner != PLAYER::Nobody <==> has_four(self@.board),
            self@.valid(),
    {
        proof {
            use_type_invariant(self);
            lemma_winner_iff_four(self@.board);
        }
        detect_winner(&self.board, self.current_move)
    }

    /// Drops a piece of the player to move into `column`, counted from 0
    /// at the left.
    ///
    /// The move is refused, and nothing changes, when the game is over
    /// (`GameFinished`), else when `column` is not on the board
    /// (`InvalidColumn`), else when the column's top cell is occupied
    /// (`ColumnFull`). Otherwise the piece comes to rest in the lowest
    /// empty cell of the column and the move is counted. If it completes
    /// a four-in-a-row the game ends with the mover as winner; if it
    /// fills the board the game ends without a winner; else the turn
    /// passes to the opponent.
    pub fn play_move(&mut self, column: usize) -> (result: Result<(), MoveError>)
        ensures
            match result {
                Ok(()) => {
                    &&& old(self)@.move_error(column as int) is None
                    &&& final(self)@ == old(self)@.after_move(column as int)
                },
                Err(error) => {
                    &&& old(self)@.move_error(column as int) == Some(error)
                    &&& final(self)@ == old(self)@
                },
            },
            old(self)@.valid(),
            final(self)@.valid(),
            old(self)@.is_finished
                ==> result == Err::<(), MoveError>(MoveError::GameFinished),
            !old(self)@.is_finished && column >= 7
                ==> result == Err::<(), MoveError>(MoveError::InvalidColumn),
            !old(self)@.is_finished && column < 7
                && old(self)@.board[0][column as int] != PLAYER::Nobody
                ==> result == Err::<(), MoveError>(MoveError::ColumnFull),
            !old(self)@.is_finished && column < 7
                && old(self)@.board[0][column as int] == PLAYER::Nobody
                ==> result is Ok,
            column < 7 ==> (column_full(old(self)@.board, column as int)
                <==> old(self)@.board[0][column as int] != PLAYER::Nobody),
            result is Ok ==> final(self)@.move_count == old(self)@.move_count + 1,
            result is Ok && !final(self)@.is_finished
                ==> final(self)@.current_player == old(self)@.current_player.spec_opponent()
                    && final(self)@.current_player != old(self)@.current_player,
            result is Ok && final(self)@.is_finished
                ==> final(self)@.current_player == old(self)@.current_player,
            result is Ok && has_four(final(self)@.board)
                ==> final(self)@.is_finished
                    && final(self)@.winner == old(self)@.current_player,
            result is Ok && !has_four(final(self)@.board)
                ==> final(self)@.winner == PLAYER::Nobody
                    && (final(self)@.is_finished <==> final(self)@.move_count == 42),
    {
        proof {
            use_type_invariant(&*self);
            lemma_drop_row(self@.board, column as int);
            if column < 7 {
                lemma_full_iff_top(self@.board, column as int);
            }
        }
        if self.is_finished {
            return Err(MoveError::GameFinished);
        }
        if column >= BOARD_WIDTH {
            return Err(MoveError::InvalidColumn);
        }
        let row = match landing_row(&self.board, column) {
            Some(row) => row,
            None => {
                return Err(MoveError::ColumnFull);
            },
        };
        let player = self.current_player;
        let board = with_piece(self.board, row, column, player);
        let current_move = self.current_move + 1;
        proof {
            law_move_keeps_valid(self@, column as int);
            law_turns_alternate(self@, column as int);
            law_win_is_immediate(self@, column as int);
        }
        let winner = detect_winner(&board, current_move);
        if winner != PLAYER::Nobody {
            *self = Game { current_move, current_player: player, board, is_finished: true, winner };
        } else if current_move == BOARD_CELLS {
            *self = Game { current_move, current_player: player, board, is_finished: true, winner };
        } else {
            *self = Game {
                current_move,
                current_player: player.opponent(),
                board,
                is_finished: false,
                winner,
            };
        }
        Ok(())
    }

    /// Plays the column that a player names by its number, counted from 1
    /// at the left.
    ///
    /// A number that names no column is refused with `InvalidColumn`,
    /// whatever the state of the game. Any other is played as
    /// `play_move` plays the column `choice - 1`.
    pub fn play_choice(&mut self, choice: usize) -> (result: Result<(), MoveError>)
        ensures
            match result {
                Ok(()) => {
                    &&& old(self)@.choice_error(choice as int) is None
                    &&& final(self)@ == old(self)@.after_move(choice - 1)
                },
                Err(error) => {
                    &&& old(self)@.choice_error(choice as int) == Some(error)
                    &&& final(self)@ == old(self)@
                },
            },
            !(1 <= choice <= 7) ==> result == Err::<(), MoveError>(MoveError::InvalidColumn),
            final(self)@.valid(),
    {
        proof {
            use_type_invariant(&*self);
        }
        if choice < 1 || choice > BOARD_WIDTH {
            return Err(MoveError::InvalidColumn);
        }
        self.play_move(choice - 1)
    }
}

} // verus!
