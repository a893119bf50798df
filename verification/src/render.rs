//! The game as text for a terminal: the framed board, the prompt for the
//! player to move, and the report of a refused input.

use crate::board::{grid_of, Grid};
use crate::game::Game;
use crate::player::PLAYER;
use crate::rules::GameView;
use vstd::prelude::*;

verus! {

/// Terminal code that ends a colour.
pub const RESET: &'static str = "\x1b[0m";

/// Terminal code for the colour of the frame.
pub const ORANGE: &'static str = "\x1b[93m";

/// Terminal code for the colour of an error.
pub const RED: &'static str = "\x1b[0;31m";

/// The glyph that shows the owner of a cell.
pub open spec fn glyph_of(owner: PLAYER) -> Seq<char> {
    match owner {
        PLAYER::One => "🔴"@,
        PLAYER::Two => "🟡"@,
        PLAYER::Nobody => "⚫"@,
    }
}

/// The glyphs of the first `n` cells, with one space between neighbours.
pub open spec fn cells_text(cells: Seq<PLAYER>, n: int) -> Seq<char>
    decreases n,
{
    if n <= 0 {
        Seq::empty()
    } else if n == 1 {
        glyph_of(cells[0])
    } else {
        cells_text(cells, n - 1) + " "@ + glyph_of(cells[n - 1])
    }
}

/// One row of the board as a line of text.
pub open spec fn row_text(cells: Seq<PLAYER>) -> Seq<char> {
    cells_text(cells, 7) + "\n"@
}

/// The first `n` rows of the board, one line each, top row first.
pub open spec fn rows_text(grid: Grid, n: int) -> Seq<char>
    decreases n,
{
    if n <= 0 {
        Seq::empty()
    } else {
        rows_text(grid, n - 1) + row_text(grid[n - 1])
    }
}

/// A decimal digit as text.
pub open spec fn digit_text(digit: int) -> Seq<char> {
    if digit == 0 {
        "0"@
    } else if digit == 1 {
        "1"@
    } else if digit == 2 {
        "2"@
    } else if digit == 3 {
        "3"@
    } else if digit == 4 {
        "4"@
    } else if digit == 5 {
        "5"@
    } else if digit == 6 {
        "6"@
    } else if digit == 7 {
        "7"@
    } else if digit == 8 {
        "8"@
    } else {
        "9"@
    }
}

/// A number in decimal, without leading zeros.
pub open spec fn number_text(n: nat) -> Seq<char>
    decreases n,
{
    if n < 10 {
        digit_text(n as int)
    } else {
        number_text(n / 10) + digit_text(n as int % 10)
    }
}

/// The line that frames the board.
pub open spec fn rule_text() -> Seq<char> {
    ORANGE@ + "--------------------"@ + RESET@ + "\n"@
}

/// The title line, which counts the moves made.
pub open spec fn title_text(move_count: nat) -> Seq<char> {
    ORANGE@ + "CONNECT 4 (Move "@ + number_text(move_count) + ")"@ + RESET@ + "\n"@
}

/// The line that reports how a finished game ended; nothing while the
/// game is on.
pub open spec fn outcome_text(state: GameView) -> Seq<char> {
    if !state.is_finished {
        Seq::empty()
    } else {
        match state.winner {
            PLAYER::One => ORANGE@ + " 🔴 Player One has won!"@ + RESET@ + "\n"@,
            PLAYER::Two => ORANGE@ + " 🟡 Player Two has won!"@ + RESET@ + "\n"@,
            PLAYER::Nobody => ORANGE@ + " It's a draw!"@ + RESET@ + "\n"@,
        }
    }
}

/// The whole display: title between rules, the six rows, a rule, the
/// outcome once the game is over, and a closing rule.
pub open spec fn display_text(state: GameView) -> Seq<char> {
    rule_text() + title_text(state.move_count) + rule_text() + rows_text(state.board, 6)
        + rule_text() + outcome_text(state) + rule_text()
}

/// The display followed by the line that reports `error`.
pub open spec fn error_text(state: GameView, error: Seq<char>) -> Seq<char> {
    display_text(state) + RED@ + "Error: "@ + error + RESET@ + "\n"@
}

/// The lines that ask the player to move for a column.
pub open spec fn prompt_text(state: GameView) -> Seq<char> {
    match state.current_player {
        PLAYER::One => "\n\n"@ + "PLAYER ONE\n"@ + "Enter a column between 1 and 7: \n"@,
        PLAYER::Two => "\n\n"@ + "PLAYER TWO\n"@ + "Enter a column between 1 and 7: \n"@,
        PLAYER::Nobody => "\n\n"@ + "Enter a column between 1 and 7: \n"@,
    }
}

/// Returns the glyph that shows the owner of a cell.
pub fn glyph(owner: PLAYER) -> (text: &'static str)
    ensures
        text@ == glyph_of(owner),
{
    match owner {
        PLAYER::One => "🔴",
        PLAYER::Two => "🟡",
        PLAYER::Nobody => "⚫",
    }
}

/// Renders one row of the board: the glyphs of its cells, separated by
/// spaces, and a line end.
pub fn render_row(cells: &[PLAYER; 7]) -> (text: String)
    ensures
        text@ == row_text(cells@),
{
    let mut text = String::from_str(glyph(cells[0]));
    for col in 1..7usize
        invariant
            text@ == cells_text(cells@, col as int),
    {
        text.append(" ");
        text.append(glyph(cells[col]));
    }
    text.append("\n");
    text
}

fn digit(value: u8) -> (text: &'static str)
    requires
        value < 10,
    ensures
        text@ == digit_text(value as int),
{
    match value {
        0 => "0",
        1 => "1",
        2 => "2",
        3 => "3",
        4 => "4",
        5 => "5",
        6 => "6",
        7 => "7",
        8 => "8",
        _ => "9",
    }
}

/// Renders a number in decimal.
pub fn render_number(n: u8) -> (text: String)
    ensures
        text@ == number_text(n as nat),
    decreases n,
{
    if n < 10 {
        String::from_str(digit(n))
    } else {
        let mut text = render_number(n / 10);
        text.append(digit(n % 10));
        text
    }
}

fn render_rule() -> (text: String)
    ensures
        text@ == rule_text(),
{
    let mut text = String::from_str(ORANGE);
    text.append("--------------------");
    text.append(RESET);
    text.append("\n");
    text
}

fn render_title(move_count: u8) -> (text: String)
    ensures
        text@ == title_text(move_count as nat),
{
    let mut text = String::from_str(ORANGE);
    text.append("CONNECT 4 (Move ");
    text.append(render_number(move_count).as_str());
    text.append(")");
    text.append(RESET);
    text.append("\n");
    text
}

impl Game {
    /// Renders the game for the terminal: the framed board under its
    /// title and, once the game is over, the outcome.
    pub fn display_text(&self) -> (text: String)
        ensures
            text@ == display_text(self@),
    {
        let board = self.board();
        let mut text = render_rule();
        text.append(render_title(self.move_count()).as_str());
        text.append(render_rule().as_str());
        let ghost frame = text@;
        for row in 0..6usize
            invariant
                grid_of(board) == self@.board,
                text@ == frame + rows_text(self@.board, row as int),
        {
            assert(board[row as int]@ =~= self@.board[row as int]);
            text.append(render_row(&board[row]).as_str());
        }
        text.append(render_rule().as_str());
        if self.is_finished() {
            text.append(ORANGE);
            match self.winner() {
                PLAYER::One => text.append(" 🔴 Player One has won!"),
                PLAYER::Two => text.append(" 🟡 Player Two has won!"),
                PLAYER::Nobody => text.append(" It's a draw!"),
            }
            text.append(RESET);
            text.append("\n");
        }
        text.append(render_rule().as_str());
        text
    }

    /// Renders the game followed by the report of `error`.
    pub fn error_text(&self, error: &str) -> (text: String)
        ensures
            text@ == error_text(self@, error@),
    {
        let mut text = self.display_text();
        text.append(RED);
        text.append("Error: ");
        text.append(error);
        text.append(RESET);
        text.append("\n");
        text
    }

    /// Renders the prompt for the player to move.
    pub fn prompt_text(&self) -> (text: String)
        ensures
            text@ == prompt_text(self@),
    {
        let mut text = String::from_str("\n\n");
        match self.current_player() {
            PLAYER::One => text.append("PLAYER ONE\n"),
            PLAYER::Two => text.append("PLAYER TWO\n"),
            PLAYER::Nobody => {},
        }
        text.append("Enter a column between 1 and 7: \n");
        text
    }
}

} // verus!
