use connect_four::render::{glyph, render_number, render_row, ORANGE, RED, RESET};
use connect_four::{Game, MoveError, PLAYER};

const RULE: &str = "\x1b[93m--------------------\x1b[0m\n";

#[test]
fn error_messages() {
    assert_eq!(MoveError::ColumnFull.message(), "column is full");
    assert_eq!(
        MoveError::InvalidColumn.message(),
        "column must be between 1 and 7"
    );
    assert_eq!(
        MoveError::GameFinished.message(),
        "game is already finished."
    );
}

#[test]
fn colour_codes() {
    assert_eq!(RESET, "\u{1b}[0m");
    assert_eq!(ORANGE, "\u{1b}[93m");
    assert_eq!(RED, "\u{1b}[0;31m");
}

#[test]
fn glyphs_are_distinct() {
    assert_eq!(glyph(PLAYER::One), "🔴");
    assert_eq!(glyph(PLAYER::Two), "🟡");
    assert_eq!(glyph(PLAYER::Nobody), "⚫");
}

#[test]
fn row_is_seven_glyphs_separated_by_spaces() {
    let row = [
        PLAYER::One,
        PLAYER::Two,
        PLAYER::Nobody,
        PLAYER::Nobody,
        PLAYER::Two,
        PLAYER::One,
        PLAYER::One,
    ];
    assert_eq!(render_row(&row), "🔴 🟡 ⚫ ⚫ 🟡 🔴 🔴\n");
    assert_eq!(
        render_row(&[PLAYER::Nobody; 7]),
        "⚫ ⚫ ⚫ ⚫ ⚫ ⚫ ⚫\n"
    );
}

#[test]
fn numbers_in_decimal() {
    assert_eq!(render_number(0), "0");
    assert_eq!(render_number(7), "7");
    assert_eq!(render_number(9), "9");
    assert_eq!(render_number(10), "10");
    assert_eq!(render_number(42), "42");
    assert_eq!(render_number(100), "100");
    assert_eq!(render_number(255), "255");
    for n in 0..=255u8 {
        assert_eq!(render_number(n), format!("{}", n));
    }
}

#[test]
fn display_of_a_new_game() {
    let game = Game::default();
    let mut expected = String::new();
    expected.push_str(RULE);
    expected.push_str("\x1b[93mCONNECT 4 (Move 0)\x1b[0m\n");
    expected.push_str(RULE);
    for _ in 0..6 {
        expected.push_str("⚫ ⚫ ⚫ ⚫ ⚫ ⚫ ⚫\n");
    }
    expected.push_str(RULE);
    expected.push_str(RULE);
    assert_eq!(game.display_text(), expected);
}

#[test]
fn display_during_a_game() {
    let mut game = Game::default();
    for column in [3usize, 3, 0] {
        assert_eq!(game.play_move(column), Ok(()));
    }
    let mut expected = String::new();
    expected.push_str(RULE);
    expected.push_str("\x1b[93mCONNECT 4 (Move 3)\x1b[0m\n");
    expected.push_str(RULE);
    for _ in 0..4 {
        expected.push_str("⚫ ⚫ ⚫ ⚫ ⚫ ⚫ ⚫\n");
    }
    expected.push_str("⚫ ⚫ ⚫ 🟡 ⚫ ⚫ ⚫\n");
    expected.push_str("🔴 ⚫ ⚫ 🔴 ⚫ ⚫ ⚫\n");
    expected.push_str(RULE);
    expected.push_str(RULE);
    assert_eq!(game.display_text(), expected);
}

#[test]
fn display_of_a_won_game() {
    let mut game = Game::default();
    for column in [0usize, 1, 0, 1, 0, 1, 0] {
        assert_eq!(game.play_move(column), Ok(()));
    }
    let mut expected = String::new();
    expected.push_str(RULE);
    expected.push_str("\x1b[93mCONNECT 4 (Move 7)\x1b[0m\n");
    expected.push_str(RULE);
    expected.push_str("⚫ ⚫ ⚫ ⚫ ⚫ ⚫ ⚫\n");
    expected.push_str("⚫ ⚫ ⚫ ⚫ ⚫ ⚫ ⚫\n");
    expected.push_str("🔴 ⚫ ⚫ ⚫ ⚫ ⚫ ⚫\n");
    expected.push_str("🔴 🟡 ⚫ ⚫ ⚫ ⚫ ⚫\n");
    expected.push_str("🔴 🟡 ⚫ ⚫ ⚫ ⚫ ⚫\n");
    expected.push_str("🔴 🟡 ⚫ ⚫ ⚫ ⚫ ⚫\n");
    expected.push_str(RULE);
    expected.push_str("\x1b[93m 🔴 Player One has won!\x1b[0m\n");
    expected.push_str(RULE);
    assert_eq!(game.display_text(), expected);
}

#[test]
fn display_when_player_two_has_won() {
    let mut game = Game::default();
    for column in [0usize, 1, 0, 1, 0, 1, 2, 1] {
        assert_eq!(game.play_move(column), Ok(()));
    }
    assert_eq!(game.winner(), PLAYER::Two);
    let text = game.display_text();
    assert!(text.contains("\x1b[93mCONNECT 4 (Move 8)\x1b[0m\n"));
    assert!(text.ends_with(&format!(
        "{}\x1b[93m 🟡 Player Two has won!\x1b[0m\n{}",
        RULE, RULE
    )));
}

#[test]
fn display_of_a_draw() {
    let mut game = Game::default();
    for column in [
        3usize, 4, 4, 3, 1, 5, 1, 1, 4, 2, 4, 5, 2, 4, 4, 3, 3, 0, 2, 5, 0, 6, 1, 1, 0, 2, 2, 3,
        6, 1, 6, 3, 0, 6, 2, 6, 5, 0, 0, 6, 5, 5,
    ] {
        assert_eq!(game.play_move(column), Ok(()));
    }
    let mut expected = String::new();
    expected.push_str(RULE);
    expected.push_str("\x1b[93mCONNECT 4 (Move 42)\x1b[0m\n");
    expected.push_str(RULE);
    expected.push_str("🔴 🟡 🔴 🟡 🔴 🟡 🟡\n");
    expected.push_str("🟡 🟡 🔴 🟡 🟡 🔴 🟡\n");
    expected.push_str("🔴 🔴 🟡 🔴 🔴 🔴 🟡\n");
    expected.push_str("🔴 🟡 🔴 🟡 🔴 🟡 🔴\n");
    expected.push_str("🔴 🔴 🔴 🟡 🔴 🟡 🔴\n");
    expected.push_str("🟡 🔴 🟡 🔴 🟡 🟡 🟡\n");
    expected.push_str(RULE);
    expected.push_str("\x1b[93m It's a draw!\x1b[0m\n");
    expected.push_str(RULE);
    assert_eq!(game.display_text(), expected);
}

#[test]
fn error_report_follows_the_display() {
    let mut game = Game::default();
    let error = game.play_move(7).unwrap_err();
    let text = game.error_text(error.message());
    let mut expected = game.display_text();
    expected.push_str("\x1b[0;31mError: column must be between 1 and 7\x1b[0m\n");
    assert_eq!(text, expected);
    assert_eq!(
        game.error_text("invalid digit found in string"),
        format!(
            "{}\x1b[0;31mError: invalid digit found in string\x1b[0m\n",
            game.display_text()
        )
    );
}

#[test]
fn prompt_names_the_player_to_move() {
    let mut game = Game::default();
    assert_eq!(
        game.prompt_text(),
        "\n\nPLAYER ONE\nEnter a column between 1 and 7: \n"
    );
    assert_eq!(game.play_move(0), Ok(()));
    assert_eq!(
        game.prompt_text(),
        "\n\nPLAYER TWO\nEnter a column between 1 and 7: \n"
    );
}
