use tetris::pieces::{Block, Color};
use tetris::rows::{clear_row, clear_set_rows, is_row_set, set_row_count};
use tetris::set_blocks::{empty_board, Board, SetBlocks};

fn fill_row(board: &mut Board, row: i8, color: Color) {
    for col in 1..=10 {
        board.set(Block { row, column: col, color });
    }
}

fn colors(board: &Board, row: i8) -> Vec<Option<Color>> {
    (1..=10).map(|col| board.get(row, col).map(|b| b.color)).collect()
}

fn stored_where_they_lie(board: &Board) -> bool {
    (1..=20).all(|row| {
        (1..=10).all(|col| match board.get(row, col) {
            Some(b) => b.row == row && b.column == col,
            None => true,
        })
    })
}

#[test]
fn a_row_is_complete_when_all_ten_cells_are_occupied() {
    let mut board = empty_board();
    fill_row(&mut board, 20, Color::Red);
    assert!(is_row_set(&board, 20));
    assert!(!is_row_set(&board, 19));
    board.remove(20, 10);
    assert!(!is_row_set(&board, 20));
    board.set(Block { row: 20, column: 10, color: Color::Blue });
    board.remove(20, 1);
    assert!(!is_row_set(&board, 20));
}

#[test]
fn rows_outside_the_grid_are_not_complete() {
    let mut board = empty_board();
    fill_row(&mut board, 1, Color::Red);
    fill_row(&mut board, 20, Color::Red);
    assert!(!is_row_set(&board, 0));
    assert!(!is_row_set(&board, 21));
    assert!(!is_row_set(&board, -1));
    assert!(!is_row_set(&board, 127));
}

#[test]
fn set_row_count_counts_the_complete_rows() {
    let mut board = empty_board();
    assert_eq!(set_row_count(&board), 0);
    fill_row(&mut board, 20, Color::Red);
    fill_row(&mut board, 17, Color::Red);
    fill_row(&mut board, 1, Color::Red);
    board.set(Block { row: 5, column: 5, color: Color::Blue });
    assert_eq!(set_row_count(&board), 3);
    for row in 1..=20 {
        fill_row(&mut board, row, Color::Green);
    }
    assert_eq!(set_row_count(&board), 20);
}

#[test]
fn clear_row_drops_the_rows_above_by_one() {
    let mut board = empty_board();
    fill_row(&mut board, 20, Color::Red);
    board.set(Block { row: 19, column: 2, color: Color::Blue });
    board.set(Block { row: 18, column: 9, color: Color::Green });
    board.set(Block { row: 1, column: 1, color: Color::Cyan });
    let before = board;
    clear_row(&mut board, 20);
    for row in 2..=20 {
        assert_eq!(colors(&board, row), colors(&before, row - 1));
    }
    assert_eq!(colors(&board, 1), vec![None; 10]);
    assert_eq!(board.get(20, 2), Some(Block { row: 20, column: 2, color: Color::Blue }));
    assert_eq!(board.get(19, 9), Some(Block { row: 19, column: 9, color: Color::Green }));
    assert_eq!(board.get(2, 1), Some(Block { row: 2, column: 1, color: Color::Cyan }));
    assert!(stored_where_they_lie(&board));
}

#[test]
fn clear_row_leaves_the_rows_below_alone() {
    let mut board = empty_board();
    fill_row(&mut board, 10, Color::Red);
    board.set(Block { row: 11, column: 4, color: Color::Blue });
    board.set(Block { row: 20, column: 1, color: Color::Green });
    board.set(Block { row: 9, column: 7, color: Color::White });
    clear_row(&mut board, 10);
    assert_eq!(board.get(11, 4), Some(Block { row: 11, column: 4, color: Color::Blue }));
    assert_eq!(board.get(20, 1), Some(Block { row: 20, column: 1, color: Color::Green }));
    assert_eq!(board.get(10, 7), Some(Block { row: 10, column: 7, color: Color::White }));
    assert_eq!(board.iter().filter(|cell| cell.is_some()).count(), 3);
}

#[test]
fn clear_row_one_empties_the_first_row() {
    let mut board = empty_board();
    fill_row(&mut board, 1, Color::Red);
    board.set(Block { row: 2, column: 2, color: Color::Blue });
    clear_row(&mut board, 1);
    assert_eq!(colors(&board, 1), vec![None; 10]);
    assert_eq!(board.get(2, 2), Some(Block { row: 2, column: 2, color: Color::Blue }));
}

#[test]
fn clear_set_rows_removes_rows_that_are_apart() {
    let mut board = empty_board();
    fill_row(&mut board, 20, Color::Red);
    fill_row(&mut board, 18, Color::Red);
    fill_row(&mut board, 15, Color::Red);
    board.set(Block { row: 19, column: 1, color: Color::Blue });
    board.set(Block { row: 17, column: 2, color: Color::Green });
    board.set(Block { row: 16, column: 3, color: Color::Cyan });
    board.set(Block { row: 14, column: 4, color: Color::White });
    board.set(Block { row: 3, column: 5, color: Color::Yellow });
    clear_set_rows(&mut board);
    assert_eq!(set_row_count(&board), 0);
    assert_eq!(board.get(20, 1), Some(Block { row: 20, column: 1, color: Color::Blue }));
    assert_eq!(board.get(19, 2), Some(Block { row: 19, column: 2, color: Color::Green }));
    assert_eq!(board.get(18, 3), Some(Block { row: 18, column: 3, color: Color::Cyan }));
    assert_eq!(board.get(17, 4), Some(Block { row: 17, column: 4, color: Color::White }));
    assert_eq!(board.get(6, 5), Some(Block { row: 6, column: 5, color: Color::Yellow }));
    assert_eq!(board.iter().filter(|cell| cell.is_some()).count(), 5);
    for row in 1..=3 {
        assert_eq!(colors(&board, row), vec![None; 10]);
    }
    assert!(stored_where_they_lie(&board));
}

#[test]
fn clear_set_rows_removes_rows_that_touch() {
    let mut board = empty_board();
    fill_row(&mut board, 20, Color::Red);
    fill_row(&mut board, 19, Color::Red);
    fill_row(&mut board, 18, Color::Red);
    fill_row(&mut board, 16, Color::Red);
    board.set(Block { row: 17, column: 6, color: Color::Blue });
    board.set(Block { row: 15, column: 7, color: Color::Green });
    clear_set_rows(&mut board);
    assert_eq!(set_row_count(&board), 0);
    assert_eq!(board.get(20, 6), Some(Block { row: 20, column: 6, color: Color::Blue }));
    assert_eq!(board.get(19, 7), Some(Block { row: 19, column: 7, color: Color::Green }));
    assert_eq!(board.iter().filter(|cell| cell.is_some()).count(), 2);
}

#[test]
fn clear_set_rows_leaves_a_board_without_complete_rows_alone() {
    let mut board = empty_board();
    board.set(Block { row: 20, column: 1, color: Color::Blue });
    board.set(Block { row: 1, column: 10, color: Color::Green });
    let before = board;
    clear_set_rows(&mut board);
    assert_eq!(board, before);
}

#[test]
fn clear_set_rows_empties_a_full_board() {
    let mut board = empty_board();
    for row in 1..=20 {
        fill_row(&mut board, row, Color::Magenta);
    }
    clear_set_rows(&mut board);
    assert_eq!(board, empty_board());
}
