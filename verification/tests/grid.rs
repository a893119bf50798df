use connect_four::board::{empty_board, landing_row, starts_four, winner_on, with_piece};
use connect_four::{BOARD, BOARD_CELLS, BOARD_HEIGHT, BOARD_WIDTH, PLAYER};

fn layout(rows: [[u8; 7]; 6]) -> BOARD {
    rows.map(|row| row.map(PLAYER::from_int))
}

#[test]
fn board_has_six_rows_of_seven_cells() {
    assert_eq!(BOARD_HEIGHT, 6);
    assert_eq!(BOARD_WIDTH, 7);
    assert_eq!(BOARD_CELLS, 42);
    let board = empty_board();
    assert_eq!(board.len(), 6);
    assert!(board.iter().all(|row| row.len() == 7));
    assert!(board.iter().flatten().all(|&cell| cell == PLAYER::Nobody));
}

#[test]
fn empty_board_has_no_winner() {
    assert_eq!(winner_on(&empty_board()), PLAYER::Nobody);
}

#[test]
fn landing_row_is_the_lowest_empty_cell() {
    let board = layout([
        [0, 0, 0, 0, 0, 0, 2],
        [0, 0, 0, 0, 0, 0, 1],
        [0, 0, 0, 0, 0, 0, 2],
        [0, 0, 0, 1, 0, 0, 1],
        [0, 0, 2, 2, 0, 0, 2],
        [0, 1, 1, 2, 0, 0, 1],
    ]);
    assert_eq!(landing_row(&board, 0), Some(5));
    assert_eq!(landing_row(&board, 1), Some(4));
    assert_eq!(landing_row(&board, 2), Some(3));
    assert_eq!(landing_row(&board, 3), Some(2));
    assert_eq!(landing_row(&board, 6), None);
}

#[test]
fn landing_row_skips_cells_above_a_gap() {
    let board = layout([
        [0, 0, 0, 0, 0, 0, 0],
        [0, 0, 0, 0, 0, 0, 0],
        [1, 0, 0, 0, 0, 0, 0],
        [0, 0, 0, 0, 0, 0, 0],
        [2, 0, 0, 0, 0, 0, 0],
        [1, 0, 0, 0, 0, 0, 0],
    ]);
    assert_eq!(landing_row(&board, 0), Some(3));
}

#[test]
fn with_piece_changes_one_cell() {
    let board = with_piece(empty_board(), 5, 2, PLAYER::Two);
    assert_eq!(
        board,
        layout([
            [0, 0, 0, 0, 0, 0, 0],
            [0, 0, 0, 0, 0, 0, 0],
            [0, 0, 0, 0, 0, 0, 0],
            [0, 0, 0, 0, 0, 0, 0],
            [0, 0, 0, 0, 0, 0, 0],
            [0, 0, 2, 0, 0, 0, 0],
        ])
    );
    let board = with_piece(board, 0, 6, PLAYER::One);
    assert_eq!(board[0][6], PLAYER::One);
    assert_eq!(board[5][2], PLAYER::Two);
    let board = with_piece(board, 5, 2, PLAYER::Nobody);
    assert_eq!(board[5][2], PLAYER::Nobody);
}

#[test]
fn four_to_the_right_is_found_at_its_left_end() {
    let board = layout([
        [0, 0, 0, 2, 2, 2, 2],
        [0, 0, 0, 0, 0, 0, 0],
        [0, 0, 0, 0, 0, 0, 0],
        [0, 0, 0, 0, 0, 0, 0],
        [0, 0, 0, 0, 0, 0, 0],
        [0, 0, 0, 0, 0, 0, 0],
    ]);
    assert!(starts_four(&board, 0, 3));
    assert!(!starts_four(&board, 0, 4));
    assert!(!starts_four(&board, 0, 2));
    assert!(!starts_four(&board, 0, 6));
    assert_eq!(winner_on(&board), PLAYER::Two);
}

#[test]
fn four_downwards_is_found_at_its_top_end() {
    let board = layout([
        [0, 0, 0, 0, 0, 0, 0],
        [0, 0, 0, 0, 0, 0, 0],
        [0, 0, 0, 0, 0, 0, 1],
        [0, 0, 0, 0, 0, 0, 1],
        [0, 0, 0, 0, 0, 0, 1],
        [0, 0, 0, 0, 0, 0, 1],
    ]);
    assert!(starts_four(&board, 2, 6));
    assert!(!starts_four(&board, 3, 6));
    assert!(!starts_four(&board, 5, 6));
    assert_eq!(winner_on(&board), PLAYER::One);
}

#[test]
fn four_down_to_the_right_is_found_from_the_top_row() {
    let board = layout([
        [1, 0, 0, 0, 0, 0, 0],
        [0, 1, 0, 0, 0, 0, 0],
        [0, 0, 1, 0, 0, 0, 0],
        [0, 0, 0, 1, 0, 0, 0],
        [0, 0, 0, 0, 0, 0, 0],
        [0, 0, 0, 0, 0, 0, 0],
    ]);
    assert!(starts_four(&board, 0, 0));
    assert!(!starts_four(&board, 1, 1));
    assert_eq!(winner_on(&board), PLAYER::One);
}

#[test]
fn four_up_to_the_right_is_found_when_it_ends_in_the_top_row() {
    let board = layout([
        [0, 0, 0, 0, 0, 0, 2],
        [0, 0, 0, 0, 0, 2, 0],
        [0, 0, 0, 0, 2, 0, 0],
        [0, 0, 0, 2, 0, 0, 0],
        [0, 0, 0, 0, 0, 0, 0],
        [0, 0, 0, 0, 0, 0, 0],
    ]);
    assert!(starts_four(&board, 3, 3));
    assert!(!starts_four(&board, 2, 4));
    assert!(!starts_four(&board, 0, 6));
    assert_eq!(winner_on(&board), PLAYER::Two);
}

#[test]
fn four_up_to_the_right_is_found_from_the_bottom_corner() {
    let board = layout([
        [0, 0, 0, 0, 0, 0, 0],
        [0, 0, 0, 0, 0, 0, 0],
        [0, 0, 0, 1, 0, 0, 0],
        [0, 0, 1, 0, 0, 0, 0],
        [0, 1, 0, 0, 0, 0, 0],
        [1, 0, 0, 0, 0, 0, 0],
    ]);
    assert!(starts_four(&board, 5, 0));
    assert_eq!(winner_on(&board), PLAYER::One);
}

#[test]
fn three_cells_and_a_gap_are_no_four() {
    let board = layout([
        [0, 0, 0, 0, 0, 0, 0],
        [0, 0, 0, 0, 0, 0, 0],
        [0, 0, 0, 0, 0, 0, 0],
        [0, 0, 0, 0, 0, 0, 0],
        [0, 0, 0, 0, 1, 1, 1],
        [1, 1, 1, 0, 1, 2, 2],
    ]);
    for row in 0..6 {
        for col in 0..7 {
            assert!(!starts_four(&board, row, col));
        }
    }
    assert_eq!(winner_on(&board), PLAYER::Nobody);
}

#[test]
fn mixed_owners_are_no_four() {
    let board = layout([
        [0, 0, 0, 0, 0, 0, 0],
        [0, 0, 0, 0, 0, 0, 0],
        [0, 0, 0, 0, 0, 0, 0],
        [0, 0, 0, 0, 0, 0, 0],
        [0, 0, 0, 0, 0, 0, 0],
        [1, 1, 2, 1, 1, 2, 2],
    ]);
    assert_eq!(winner_on(&board), PLAYER::Nobody);
}

#[test]
fn first_four_in_reading_order_decides() {
    let board = layout([
        [0, 0, 0, 0, 0, 0, 0],
        [0, 0, 0, 0, 0, 0, 0],
        [0, 0, 0, 0, 0, 0, 2],
        [1, 1, 1, 1, 0, 0, 2],
        [0, 0, 0, 0, 0, 0, 2],
        [0, 0, 0, 0, 0, 0, 2],
    ]);
    assert!(starts_four(&board, 2, 6));
    assert!(starts_four(&board, 3, 0));
    assert_eq!(winner_on(&board), PLAYER::Two);
    let board = layout([
        [0, 0, 0, 0, 0, 0, 0],
        [0, 0, 0, 0, 0, 0, 0],
        [1, 1, 1, 1, 0, 0, 2],
        [0, 0, 0, 0, 0, 0, 2],
        [0, 0, 0, 0, 0, 0, 2],
        [0, 0, 0, 0, 0, 0, 2],
    ]);
    assert_eq!(winner_on(&board), PLAYER::One);
}
