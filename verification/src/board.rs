//! The grid as a mathematical object: cells, gravity, piece counts and
//! four-in-a-row, with the lemmas that the game logic rests on.
//!
//! Row 0 is the top of the board and row 5 the bottom. Cells are read in
//! reading order: row by row from the top, each row from left to right.

use crate::player::PLAYER;
use vstd::prelude::*;

verus! {

/// Number of columns.
pub const BOARD_WIDTH: usize = 7;

/// Number of rows.
pub const BOARD_HEIGHT: usize = 6;

/// Number of cells, and so the greatest number of moves in a game.
pub const BOARD_CELLS: u8 = 42;

/// The board as stored: six rows of seven cells, top row first.
pub type BOARD = [[PLAYER; BOARD_WIDTH]; BOARD_HEIGHT];

/// The board as contracts see it: `grid[row][col]`.
pub type Grid = Seq<Seq<PLAYER>>;

/// `(row, col)` names a cell of the board.
pub open spec fn on_board(row: int, col: int) -> bool {
    0 <= row < 6 && 0 <= col < 7
}

/// The grid has six rows of seven cells.
pub open spec fn well_shaped(grid: Grid) -> bool {
    &&& grid.len() == 6
    &&& forall|row: int| 0 <= row < 6 ==> (#[trigger] grid[row]).len() == 7
}

/// The grid with no piece on it.
pub open spec fn empty_grid() -> Grid {
    Seq::new(6, |row: int| Seq::new(7, |col: int| PLAYER::Nobody))
}

/// The grid that a stored board stands for.
pub open spec fn grid_of(board: BOARD) -> Grid {
    Seq::new(6, |row: int| Seq::new(7, |col: int| board[row][col]))
}

/// The grid with the cell `(row, col)` given to `player`.
pub open spec fn place(grid: Grid, row: int, col: int, player: PLAYER) -> Grid {
    grid.update(row, grid[row].update(col, player))
}

/// Every cell of the column is occupied.
pub open spec fn column_full(grid: Grid, col: int) -> bool {
    forall|row: int| 0 <= row < 6 ==> (#[trigger] grid[row])[col] != PLAYER::Nobody
}

/// The first empty row of `col` met when walking up from `row`, or -1 when
/// every cell from `row` up to the top is occupied.
pub open spec fn lowest_empty(grid: Grid, col: int, row: int) -> int
    decreases row + 1,
{
    if row < 0 {
        -1
    } else if grid[row][col] == PLAYER::Nobody {
        row
    } else {
        lowest_empty(grid, col, row - 1)
    }
}

/// The row in which a piece dropped into `col` comes to rest: the lowest
/// empty cell of the column, or -1 when the column is full.
pub open spec fn drop_row(grid: Grid, col: int) -> int {
    lowest_empty(grid, col, 5)
}

/// Gravity: no empty cell lies below a piece.
pub open spec fn settled(grid: Grid) -> bool {
    forall|upper: int, lower: int, col: int|
        #![trigger grid[upper][col], grid[lower][col]]
        0 <= upper < lower < 6 && 0 <= col < 7 && grid[upper][col] != PLAYER::Nobody
            ==> grid[lower][col] != PLAYER::Nobody
}

/// Number of cells owned by `player` among the first `n` cells in reading
/// order.
pub open spec fn count_upto(grid: Grid, player: PLAYER, n: int) -> nat
    decreases n,
{
    if n <= 0 {
        0
    } else if grid[(n - 1) / 7][(n - 1) % 7] == player {
        count_upto(grid, player, n - 1) + 1
    } else {
        count_upto(grid, player, n - 1)
    }
}

/// Number of cells of the board owned by `player`.
pub open spec fn pieces(grid: Grid, player: PLAYER) -> nat {
    count_upto(grid, player, 42)
}

/// Number of occupied cells.
pub open spec fn occupied(grid: Grid) -> nat {
    pieces(grid, PLAYER::One) + pieces(grid, PLAYER::Two)
}

/// The four cells that start at `(row, col)` and advance by
/// `(row_step, col_step)` lie on the board and belong to one player.
pub open spec fn run_at(grid: Grid, row: int, col: int, row_step: int, col_step: int) -> bool {
    &&& on_board(row, col)
    &&& on_board(row + 3 * row_step, col + 3 * col_step)
    &&& grid[row][col] != PLAYER::Nobody
    &&& grid[row + row_step][col + col_step] == grid[row][col]
    &&& grid[row + 2 * row_step][col + 2 * col_step] == grid[row][col]
    &&& grid[row + 3 * row_step][col + 3 * col_step] == grid[row][col]
}

/// A four-in-a-row starts at `(row, col)`: to the right, downwards, down
/// to the right, or up to the right.
pub open spec fn wins_from(grid: Grid, row: int, col: int) -> bool {
    ||| run_at(grid, row, col, 0, 1)
    ||| run_at(grid, row, col, 1, 0)
    ||| run_at(grid, row, col, 1, 1)
    ||| run_at(grid, row, col, -1, 1)
}

/// Some four-in-a-row stands on the grid.
pub open spec fn has_four(grid: Grid) -> bool {
    exists|row: int, col: int| on_board(row, col) && #[trigger] wins_from(grid, row, col)
}

/// `(row_a, col_a)` comes before `(row_b, col_b)` in reading order.
pub open spec fn reads_before(row_a: int, col_a: int, row_b: int, col_b: int) -> bool {
    row_a < row_b || (row_a == row_b && col_a < col_b)
}

/// `(row, col)` starts a four-in-a-row and no cell before it in reading
/// order does.
pub open spec fn first_win(grid: Grid, row: int, col: int) -> bool {
    &&& on_board(row, col)
    &&& wins_from(grid, row, col)
    &&& forall|r: int, c: int|
        on_board(r, c) && reads_before(r, c, row, col) ==> !#[trigger] wins_from(grid, r, c)
}

/// The winner that the grid shows: the owner of the first cell in reading
/// order that starts a four-in-a-row, `Nobody` when there is none.
pub open spec fn winner_of(grid: Grid) -> PLAYER {
    if has_four(grid) {
        let (row, col) = choose|row: int, col: int| first_win(grid, row, col);
        grid[row][col]
    } else {
        PLAYER::Nobody
    }
}

/// Whenever a four-in-a-row stands on the grid, one of them comes first
/// in reading order.
pub proof fn lemma_first_win_exists(grid: Grid, row: int, col: int)
    requires
        on_board(row, col),
        wins_from(grid, row, col),
    ensures
        exists|r: int, c: int| first_win(grid, r, c),
    decreases row * 7 + col,
{
    if exists|r: int, c: int|
        on_board(r, c) && reads_before(r, c, row, col) && #[trigger] wins_from(grid, r, c) {
        let (r, c) = choose|r: int, c: int|
            on_board(r, c) && reads_before(r, c, row, col) && #[trigger] wins_from(grid, r, c);
        lemma_first_win_exists(grid, r, c);
    } else {
        assert(first_win(grid, row, col));
    }
}

/// A first four-in-a-row decides the winner: its owner.
pub proof fn lemma_first_win_decides(grid: Grid, row: int, col: int)
    requires
        first_win(grid, row, col),
    ensures
        has_four(grid),
        winner_of(grid) == grid[row][col],
        winner_of(grid) != PLAYER::Nobody,
{
    let (r, c) = choose|r: int, c: int| first_win(grid, r, c);
    assert(first_win(grid, r, c));
    assert(!reads_before(r, c, row, col));
    assert(!reads_before(row, col, r, c));
}

/// The winner is a player exactly when a four-in-a-row stands on the grid.
pub proof fn lemma_winner_iff_four(grid: Grid)
    ensures
        winner_of(grid) != PLAYER::Nobody <==> has_four(grid),
{
    if has_four(grid) {
        let (row, col) = choose|row: int, col: int|
            on_board(row, col) && #[trigger] wins_from(grid, row, col);
        lemma_first_win_exists(grid, row, col);
        let (r, c) = choose|r: int, c: int| first_win(grid, r, c);
        lemma_first_win_decides(grid, r, c);
    }
}

/// What `drop_row` finds: an empty cell with only occupied cells below
/// it, or nothing exactly when the column is full.
pub proof fn lemma_drop_row(grid: Grid, col: int)
    ensures
        -1 <= drop_row(grid, col) < 6,
        drop_row(grid, col) == -1 <==> column_full(grid, col),
        drop_row(grid, col) >= 0 ==> grid[drop_row(grid, col)][col] == PLAYER::Nobody,
        forall|row: int|
            drop_row(grid, col) < row < 6 ==> (#[trigger] grid[row])[col] != PLAYER::Nobody,
{
    lemma_lowest_empty(grid, col, 5);
}

proof fn lemma_lowest_empty(grid: Grid, col: int, from: int)
    requires
        -1 <= from < 6,
    ensures
        -1 <= lowest_empty(grid, col, from) <= from,
        lowest_empty(grid, col, from) >= 0 ==> grid[lowest_empty(grid, col, from)][col]
            == PLAYER::Nobody,
        forall|row: int|
            lowest_empty(grid, col, from) < row <= from ==> (#[trigger] grid[row])[col]
                != PLAYER::Nobody,
    decreases from + 1,
{
    if from >= 0 && grid[from][col] != PLAYER::Nobody {
        lemma_lowest_empty(grid, col, from - 1);
    }
}

/// In a settled column the top cell tells whether the column is full.
pub proof fn lemma_full_iff_top(grid: Grid, col: int)
    requires
        settled(grid),
        0 <= col < 7,
    ensures
        column_full(grid, col) <==> grid[0][col] != PLAYER::Nobody,
{
    if grid[0][col] != PLAYER::Nobody {
        assert forall|row: int| 0 <= row < 6 implies (#[trigger] grid[row])[col]
            != PLAYER::Nobody by {
            if row > 0 {
                assert(grid[0][col] != PLAYER::Nobody ==> grid[row][col] != PLAYER::Nobody);
            }
        }
    }
}

/// A piece dropped into a settled grid leaves it settled.
pub proof fn lemma_place_settled(grid: Grid, col: int, player: PLAYER)
    requires
        well_shaped(grid),
        settled(grid),
        0 <= col < 7,
        drop_row(grid, col) >= 0,
        player != PLAYER::Nobody,
    ensures
        well_shaped(place(grid, drop_row(grid, col), col, player)),
        settled(place(grid, drop_row(grid, col), col, player)),
{
    lemma_drop_row(grid, col);
    let row = drop_row(grid, col);
    let next = place(grid, row, col, player);
    assert(next[row][col] == player);
    assert forall|upper: int, lower: int, c: int|
        #![trigger next[upper][c], next[lower][c]]
        0 <= upper < lower < 6 && 0 <= c < 7 && next[upper][c] != PLAYER::Nobody implies
        next[lower][c] != PLAYER::Nobody by {
        if c == col && lower == row {
        } else if c == col && upper == row {
            assert(grid[lower][col] != PLAYER::Nobody);
            assert(next[lower][c] == grid[lower][c]);
        } else {
            assert(next[upper][c] == grid[upper][c]);
            assert(next[lower][c] == grid[lower][c]);
        }
    }
}

/// Counting is monotone in the number of cells read.
pub proof fn lemma_count_monotone(grid: Grid, player: PLAYER, m: int, n: int)
    requires
        m <= n,
    ensures
        count_upto(grid, player, m) <= count_upto(grid, player, n),
        count_upto(grid, player, n) <= count_upto(grid, player, m) + (n - m),
    decreases n - m,
{
    if m < n {
        lemma_count_monotone(grid, player, m, n - 1);
    }
}

/// Giving an empty cell to a player adds one to that player's pieces and
/// leaves the other player's unchanged.
pub proof fn lemma_count_place(grid: Grid, row: int, col: int, player: PLAYER, who: PLAYER, n: int)
    requires
        well_shaped(grid),
        on_board(row, col),
        grid[row][col] == PLAYER::Nobody,
        player != PLAYER::Nobody,
        who != PLAYER::Nobody,
        0 <= n <= 42,
    ensures
        count_upto(place(grid, row, col, player), who, n) == count_upto(grid, who, n) + (if who
            == player && row * 7 + col < n {
            1nat
        } else {
            0nat
        }),
    decreases n,
{
    if n > 0 {
        lemma_count_place(grid, row, col, player, who, n - 1);
        let r = (n - 1) / 7;
        let c = (n - 1) % 7;
        let next = place(grid, row, col, player);
        if r == row && c == col {
            assert(next[r][c] == player);
        } else {
            assert(next[r][c] == grid[r][c]);
        }
    }
}

/// Four different cells of one player make at least four pieces.
pub proof fn lemma_count_four(grid: Grid, player: PLAYER, a: int, b: int, c: int, d: int)
    requires
        0 <= a < b < c < d < 42,
        grid[a / 7][a % 7] == player,
        grid[b / 7][b % 7] == player,
        grid[c / 7][c % 7] == player,
        grid[d / 7][d % 7] == player,
    ensures
        pieces(grid, player) >= 4,
{
    lemma_count_monotone(grid, player, 0, a);
    lemma_count_monotone(grid, player, a + 1, b);
    lemma_count_monotone(grid, player, b + 1, c);
    lemma_count_monotone(grid, player, c + 1, d);
    lemma_count_monotone(grid, player, d + 1, 42);
}

/// A four-in-a-row takes four pieces of its owner.
pub proof fn lemma_run_takes_four(grid: Grid, row: int, col: int)
    requires
        on_board(row, col),
        wins_from(grid, row, col),
    ensures
        pieces(grid, grid[row][col]) >= 4,
{
    let player = grid[row][col];
    let at = row * 7 + col;
    if run_at(grid, row, col, 0, 1) {
        lemma_count_four(grid, player, at, at + 1, at + 2, at + 3);
    } else if run_at(grid, row, col, 1, 0) {
        lemma_count_four(grid, player, at, at + 7, at + 14, at + 21);
    } else if run_at(grid, row, col, 1, 1) {
        lemma_count_four(grid, player, at, at + 8, at + 16, at + 24);
    } else {
        lemma_count_four(grid, player, at - 18, at - 12, at - 6, at);
    }
}

/// With fewer than four pieces each, neither player has a four-in-a-row.
pub proof fn lemma_few_pieces_no_four(grid: Grid)
    requires
        well_shaped(grid),
        pieces(grid, PLAYER::One) < 4,
        pieces(grid, PLAYER::Two) < 4,
    ensures
        !has_four(grid),
        winner_of(grid) == PLAYER::Nobody,
{
    if has_four(grid) {
        let (row, col) = choose|row: int, col: int|
            on_board(row, col) && #[trigger] wins_from(grid, row, col);
        lemma_run_takes_four(grid, row, col);
    }
}

/// On a grid without a four-in-a-row, a four-in-a-row that appears when a
/// piece is placed belongs to the player who placed it.
pub proof fn lemma_new_run_owner(grid: Grid, row: int, col: int, player: PLAYER, r: int, c: int)
    requires
        well_shaped(grid),
        on_board(row, col),
        !has_four(grid),
        on_board(r, c),
        wins_from(place(grid, row, col, player), r, c),
    ensures
        place(grid, row, col, player)[r][c] == player,
{
    let next = place(grid, row, col, player);
    assert(next[row][col] == player);
    assert forall|i: int, j: int| on_board(i, j) && !(i == row && j == col) implies next[i][j]
        == grid[i][j] by {}
    if next[r][c] != player {
        assert(wins_from(grid, r, c));
    }
}

/// A piece placed on a grid without a four-in-a-row can only complete one
/// for its own player.
pub proof fn lemma_place_winner(grid: Grid, row: int, col: int, player: PLAYER)
    requires
        well_shaped(grid),
        on_board(row, col),
        !has_four(grid),
        player != PLAYER::Nobody,
    ensures
        has_four(place(grid, row, col, player)) <==> winner_of(place(grid, row, col, player))
            == player,
        !has_four(place(grid, row, col, player)) <==> winner_of(place(grid, row, col, player))
            == PLAYER::Nobody,
{
    let next = place(grid, row, col, player);
    lemma_winner_iff_four(next);
    if has_four(next) {
        let (r0, c0) = choose|r: int, c: int| on_board(r, c) && #[trigger] wins_from(next, r, c);
        lemma_first_win_exists(next, r0, c0);
        let (r, c) = choose|r: int, c: int| first_win(next, r, c);
        lemma_first_win_decides(next, r, c);
        lemma_new_run_owner(grid, row, col, player, r, c);
    }
}

/// The board with no piece on it.
pub fn empty_board() -> (board: BOARD)
    ensures
        grid_of(board) == empty_grid(),
{
    let board = [[PLAYER::Nobody; BOARD_WIDTH]; BOARD_HEIGHT];
    assert(grid_of(board) =~~= empty_grid());
    board
}

/// Finds where a piece dropped into `col` comes to rest, scanning the
/// column from the bottom row upward: the lowest empty cell, or nothing
/// when every cell of the column is occupied.
pub fn landing_row(board: &BOARD, col: usize) -> (landing: Option<usize>)
    requires
        col < 7,
    ensures
        match landing {
            Some(row) => {
                &&& row < 6
                &&& row == drop_row(grid_of(*board), col as int)
                &&& grid_of(*board)[row as int][col as int] == PLAYER::Nobody
                &&& forall|below: int|
                    row < below < 6 ==> (#[trigger] grid_of(*board)[below])[col as int]
                        != PLAYER::Nobody
            },
            None => {
                &&& drop_row(grid_of(*board), col as int) == -1
                &&& column_full(grid_of(*board), col as int)
            },
        },
{
    let ghost grid = grid_of(*board);
    let mut row: usize = BOARD_HEIGHT;
    while row > 0
        invariant
            row <= 6,
            col < 7,
            grid == grid_of(*board),
            drop_row(grid, col as int) == lowest_empty(grid, col as int, row - 1),
        decreases row,
    {
        row -= 1;
        if board[row][col] == PLAYER::Nobody {
            proof {
                lemma_drop_row(grid, col as int);
            }
            return Some(row);
        }
    }
    proof {
        lemma_drop_row(grid, col as int);
    }
    None
}

/// Returns the board with the cell `(row, col)` given to `player`.
pub fn with_piece(board: BOARD, row: usize, col: usize, player: PLAYER) -> (next: BOARD)
    requires
        row < 6,
        col < 7,
    ensures
        grid_of(next) == place(grid_of(board), row as int, col as int, player),
{
    let mut next = board;
    let mut cells = board[row];
    cells[col] = player;
    next[row] = cells;
    assert(grid_of(next) =~~= place(grid_of(board), row as int, col as int, player));
    next
}

/// Walks from the occupied cell `(row, col)` in steps of
/// `(row_step, col_step)` for as long as the cells belong to the owner of
/// the first, and tells whether four cells in a row were found.
fn run_from(
    board: &BOARD,
    row: usize,
    col: usize,
    row_step: isize,
    col_step: isize,
) -> (found: bool)
    requires
        row < 6,
        col < 7,
        -1 <= row_step <= 1,
        -1 <= col_step <= 1,
        board[row as int][col as int] != PLAYER::Nobody,
    ensures
        found == run_at(grid_of(*board), row as int, col as int, row_step as int, col_step as int),
{
    let ghost grid = grid_of(*board);
    let cell = board[row][col];
    let mut consecutive_count: u8 = 1;
    let mut r: isize = row as isize + row_step;
    let mut c: isize = col as isize + col_step;
    while r >= 0 && r < 6 && c >= 0 && c < 7
        invariant
            row < 6,
            col < 7,
            -1 <= row_step <= 1,
            -1 <= col_step <= 1,
            grid == grid_of(*board),
            cell == grid[row as int][col as int],
            cell != PLAYER::Nobody,
            1 <= consecutive_count <= 3,
            r == row + consecutive_count * row_step,
            c == col + consecutive_count * col_step,
            consecutive_count >= 2 ==> grid[row + row_step][col + col_step] == cell,
            consecutive_count >= 3 ==> grid[row + 2 * row_step][col + 2 * col_step] == cell,
        decreases 4 - consecutive_count,
    {
        if board[r as usize][c as usize] == cell {
            consecutive_count += 1;
            if consecutive_count == 4 {
                return true;
            }
        } else {
            return false;
        }
        r += row_step;
        c += col_step;
    }
    false
}

/// Tells whether a four-in-a-row starts at `(row, col)`, in one of the
/// four directions.
pub fn starts_four(board: &BOARD, row: usize, col: usize) -> (found: bool)
    requires
        row < 6,
        col < 7,
    ensures
        found == wins_from(grid_of(*board), row as int, col as int),
{
    if board[row][col] == PLAYER::Nobody {
        return false;
    }
    run_from(board, row, col, 0, 1)
        || run_from(board, row, col, 1, 0)
        || run_from(board, row, col, 1, 1)
        || run_from(board, row, col, -1, 1)
}

/// Scans the board in reading order and returns the owner of the first
/// cell that starts a four-in-a-row, `Nobody` when no cell does.
pub fn winner_on(board: &BOARD) -> (winner: PLAYER)
    ensures
        winner == winner_of(grid_of(*board)),
        winner != PLAYER::Nobody <==> has_four(grid_of(*board)),
{
    let ghost grid = grid_of(*board);
    proof {
        lemma_winner_iff_four(grid);
    }
    for row in 0..BOARD_HEIGHT
        invariant
            grid == grid_of(*board),
            forall|r: int, c: int| 0 <= r < row && 0 <= c < 7 ==> !#[trigger] wins_from(grid, r, c),
    {
        for col in 0..BOARD_WIDTH
            invariant
                row < 6,
                grid == grid_of(*board),
                forall|r: int, c: int|
                    0 <= r < row && 0 <= c < 7 ==> !#[trigger] wins_from(grid, r, c),
                forall|c: int| 0 <= c < col ==> !#[trigger] wins_from(grid, row as int, c),
        {
            if starts_four(board, row, col) {
                proof {
                    assert(first_win(grid, row as int, col as int));
                    lemma_first_win_decides(grid, row as int, col as int);
                }
                return board[row][col];
            }
        }
    }
    PLAYER::Nobody
}

} // verus!
