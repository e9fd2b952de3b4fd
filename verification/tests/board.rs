use tetris::pieces::{Block, Color};
use tetris::set_blocks::{empty_board, index, SetBlocks};

#[test]
fn index_counts_row_by_row() {
    assert_eq!(index(1, 1), 0);
    assert_eq!(index(1, 10), 9);
    assert_eq!(index(2, 1), 10);
    assert_eq!(index(20, 10), 199);
    assert_eq!(index(0, 0), -11);
    assert_eq!(index(-128, -128), -1419);
    assert_eq!(index(127, 127), 1386);
}

#[test]
fn empty_board_has_no_block() {
    let board = empty_board();
    for row in 1..=20 {
        for col in 1..=10 {
            assert!(!board.has_block(row, col));
            assert_eq!(board.get(row, col), None);
        }
    }
}

#[test]
fn has_block_is_false_outside_the_grid() {
    let mut board = empty_board();
    board.set(Block { row: 1, column: 1, color: Color::Red });
    board.set(Block { row: 20, column: 10, color: Color::Red });
    for (row, col) in [(0, 1), (1, 0), (21, 1), (1, 11), (-1, -1), (127, 127), (-128, 5), (0, 0)] {
        assert!(!board.has_block(row, col));
        assert_eq!(board.get(row, col), None);
    }
}

#[test]
fn set_writes_the_block_at_its_own_coordinates() {
    let mut board = empty_board();
    let block = Block { row: 7, column: 3, color: Color::Green };
    board.set(block);
    assert!(board.has_block(7, 3));
    assert_eq!(board.get(7, 3), Some(block));
    assert!(!board.has_block(3, 7));
    assert!(!board.has_block(7, 4));
    assert!(!board.has_block(8, 3));
    assert_eq!(board.iter().filter(|cell| cell.is_some()).count(), 1);
}

#[test]
fn set_replaces_what_the_cell_held() {
    let mut board = empty_board();
    board.set(Block { row: 7, column: 3, color: Color::Green });
    board.set(Block { row: 7, column: 3, color: Color::Blue });
    assert_eq!(board.get(7, 3), Some(Block { row: 7, column: 3, color: Color::Blue }));
}

#[test]
fn remove_empties_one_cell() {
    let mut board = empty_board();
    board.set(Block { row: 7, column: 3, color: Color::Green });
    board.set(Block { row: 7, column: 4, color: Color::Red });
    board.remove(7, 3);
    assert!(!board.has_block(7, 3));
    assert!(board.has_block(7, 4));
    board.remove(7, 3);
    assert!(!board.has_block(7, 3));
    assert_eq!(board.iter().filter(|cell| cell.is_some()).count(), 1);
}
