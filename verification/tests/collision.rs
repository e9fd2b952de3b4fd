use tetris::collision::{
    all_in_bounds, can_move_rows, collides_with_set_blocks, in_bounds_bottom_row, in_bounds_cols,
};
use tetris::pieces::{new, rotate_clockwise, translate, Block, Color, PieceType};
use tetris::set_blocks::{empty_board, SetBlocks};

#[test]
fn fresh_pieces_are_not_fully_in_bounds() {
    for ty in [
        PieceType::I,
        PieceType::J,
        PieceType::L,
        PieceType::O,
        PieceType::S,
        PieceType::T,
        PieceType::Z,
    ] {
        let piece = new(ty);
        assert!(!all_in_bounds(&piece));
        assert!(in_bounds_bottom_row(&piece));
        assert!(in_bounds_cols(&piece));
    }
}

#[test]
fn a_piece_on_the_board_is_fully_in_bounds() {
    let piece = translate(&new(PieceType::I), 1, 0);
    assert!(all_in_bounds(&piece));
    let bottom = translate(&new(PieceType::J), 20, 0);
    assert!(all_in_bounds(&bottom));
    let below = translate(&new(PieceType::J), 21, 0);
    assert!(!all_in_bounds(&below));
}

#[test]
fn bottom_bound_allows_rows_above_the_board() {
    assert!(in_bounds_bottom_row(&translate(&new(PieceType::I), -50, 0)));
    assert!(in_bounds_bottom_row(&translate(&new(PieceType::I), 20, 0)));
    assert!(!in_bounds_bottom_row(&translate(&new(PieceType::I), 21, 0)));
    assert!(!in_bounds_bottom_row(&translate(&rotate_clockwise(&new(PieceType::I)), 21, 0)));
}

#[test]
fn column_bounds_are_one_to_ten() {
    let bar = new(PieceType::I);
    assert!(in_bounds_cols(&translate(&bar, 0, -3)));
    assert!(!in_bounds_cols(&translate(&bar, 0, -4)));
    assert!(in_bounds_cols(&translate(&bar, 0, 3)));
    assert!(!in_bounds_cols(&translate(&bar, 0, 4)));
    assert!(in_bounds_cols(&translate(&bar, 40, 3)));
}

#[test]
fn a_piece_collides_where_it_lies_on_a_settled_block() {
    let mut board = empty_board();
    board.set(Block { row: 5, column: 7, color: Color::Red });
    let bar = translate(&new(PieceType::I), 5, 0);
    assert!(collides_with_set_blocks(&board, &bar));
    assert!(!collides_with_set_blocks(&board, &translate(&bar, 0, -1)));
    assert!(!collides_with_set_blocks(&board, &translate(&bar, 1, 0)));
    assert!(!collides_with_set_blocks(&empty_board(), &bar));
}

#[test]
fn blocks_outside_the_grid_collide_with_nothing() {
    let mut board = empty_board();
    for col in 1..=10 {
        board.set(Block { row: 1, column: col, color: Color::Red });
    }
    assert!(!collides_with_set_blocks(&board, &new(PieceType::I)));
    assert!(!collides_with_set_blocks(&board, &translate(&new(PieceType::I), 1, 10)));
}

#[test]
fn a_piece_can_fall_onto_free_cells_above_the_floor() {
    let mut board = empty_board();
    let bar = translate(&new(PieceType::I), 19, 0);
    assert!(can_move_rows(&board, &bar, 1));
    assert!(!can_move_rows(&board, &bar, 2));
    board.set(Block { row: 20, column: 4, color: Color::Red });
    assert!(!can_move_rows(&board, &bar, 1));
    assert!(can_move_rows(&board, &translate(&bar, 0, 1), 1));
    assert!(can_move_rows(&board, &bar, 0));
}
