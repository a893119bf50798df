//! The two players, the empty marker, and the reasons a move is refused.

use vstd::prelude::*;

verus! {

/// Owner of a cell, or of the game once it is won. `Nobody` marks an empty
/// cell and an undecided game.
#[allow(clippy::upper_case_acronyms)]
#[derive(Clone, Copy, Debug, PartialEq, Eq, Structural)]
pub enum PLAYER {
    One,
    Two,
    Nobody,
}

impl PLAYER {
    /// The marker that a small integer stands for: 1 and 2 are the two
    /// players, every other value is the empty marker.
    pub open spec fn spec_from_int(value: u8) -> PLAYER {
        if value == 1 {
            PLAYER::One
        } else if value == 2 {
            PLAYER::Two
        } else {
            PLAYER::Nobody
        }
    }

    /// Decodes a marker from its integer form.
    #[verifier::when_used_as_spec(spec_from_int)]
    pub fn from_int(value: u8) -> (player: PLAYER)
        ensures
            player == Self::spec_from_int(value),
    {
        match value {
            1 => PLAYER::One,
            2 => PLAYER::Two,
            _ => PLAYER::Nobody,
        }
    }

    /// The player who moves after `self`. The empty marker has no opponent
    /// and maps to `One`, the player who opens a game.
    pub open spec fn spec_opponent(self) -> PLAYER {
        match self {
            PLAYER::One => PLAYER::Two,
            _ => PLAYER::One,
        }
    }

    /// Returns the player who moves after `self`.
    #[verifier::when_used_as_spec(spec_opponent)]
    pub fn opponent(self) -> (next: PLAYER)
        ensures
            next == self.spec_opponent(),
    {
        match self {
            PLAYER::One => PLAYER::Two,
            _ => PLAYER::One,
        }
    }
}

/// Why `play_move` refused a move.
#[derive(Clone, Copy, Debug, PartialEq, Eq, Structural)]
pub enum MoveError {
    /// The game is already over.
    GameFinished,
    /// The column index is not on the board.
    InvalidColumn,
    /// Every cell of the column is occupied.
    ColumnFull,
}

impl MoveError {
    /// The text shown to a player for this error.
    pub open spec fn spec_message(self) -> Seq<char> {
        match self {
            MoveError::ColumnFull => "column is full"@,
            MoveError::InvalidColumn => "column must be between 1 and 7"@,
            MoveError::GameFinished => "game is already finished."@,
        }
    }

    /// Returns the text shown to a player for this error.
    pub fn message(&self) -> (text: &'static str)
        ensures
            text@ == self.spec_message(),
    {
        match self {
            MoveError::ColumnFull => "column is full",
            MoveError::InvalidColumn => "column must be between 1 and 7",
            MoveError::GameFinished => "game is already finished.",
        }
    }
}

} // verus!
