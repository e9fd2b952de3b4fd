//! Where a piece may be: the bounds of the board and the settled blocks.

use crate::pieces::{spawn, translate, Block, Piece, PieceType};
use crate::set_blocks::{in_grid, SetBlocks};
use vstd::prelude::*;

verus! {

/// `block` lies on a cell of the grid that holds a settled block.
pub open spec fn on_settled<B: SetBlocks>(board: B, block: Block) -> bool {
    in_grid(block.row as int, block.column as int) && board.cell(
        block.row as int,
        block.column as int,
    ) is Some
}

/// Some block of `piece` lies on a settled block.
pub open spec fn collides<B: SetBlocks>(board: B, piece: Piece) -> bool {
    ||| on_settled(board, piece.blocks[0])
    ||| on_settled(board, piece.blocks[1])
    ||| on_settled(board, piece.blocks[2])
    ||| on_settled(board, piece.blocks[3])
}

/// No block of `piece` lies below the last row. Rows above the board are
/// allowed.
pub open spec fn above_bottom(piece: Piece) -> bool {
    forall|i: int| 0 <= i < 4 ==> (#[trigger] piece.blocks[i]).row <= 20
}

/// Every block of `piece` lies in one of the ten columns.
pub open spec fn within_columns(piece: Piece) -> bool {
    forall|i: int| 0 <= i < 4 ==> 1 <= (#[trigger] piece.blocks[i]).column <= 10
}

/// Every block of `piece` lies on a cell of the grid.
pub open spec fn fully_in_bounds(piece: Piece) -> bool {
    forall|i: int|
        0 <= i < 4 ==> in_grid(
            (#[trigger] piece.blocks[i]).row as int,
            piece.blocks[i].column as int,
        )
}

/// `piece` can move by `row_offset` rows: moved, it is above the bottom and
/// lies on no settled block.
pub open spec fn can_move<B: SetBlocks>(board: B, piece: Piece, row_offset: int) -> bool {
    above_bottom(piece.translated(row_offset, 0)) && !collides(
        board,
        piece.translated(row_offset, 0),
    )
}

/// `piece` can fall by one row.
pub open spec fn can_fall<B: SetBlocks>(board: B, piece: Piece) -> bool {
    can_move(board, piece, 1)
}

/// Whether some block of `piece` lies on a settled block.
pub fn collides_with_set_blocks<B: SetBlocks>(board: &B, piece: &Piece) -> (hit: bool)
    ensures
        hit == collides(*board, *piece),
{
    board.has_block(piece.blocks[0].row, piece.blocks[0].column) || board.has_block(
        piece.blocks[1].row,
        piece.blocks[1].column,
    ) || board.has_block(piece.blocks[2].row, piece.blocks[2].column) || board.has_block(
        piece.blocks[3].row,
        piece.blocks[3].column,
    )
}

/// Whether every block of `piece` has a row of at most 20.
pub fn in_bounds_bottom_row(piece: &Piece) -> (inside: bool)
    ensures
        inside == above_bottom(*piece),
{
    piece.blocks[0].row <= 20 && piece.blocks[1].row <= 20 && piece.blocks[2].row <= 20
        && piece.blocks[3].row <= 20
}

fn column_in_bounds(block: &Block) -> (inside: bool)
    ensures
        inside == (1 <= block.column <= 10),
{
    block.column >= 1 && block.column <= 10
}

/// Whether every block of `piece` has a column from 1 to 10.
pub fn in_bounds_cols(piece: &Piece) -> (inside: bool)
    ensures
        inside == within_columns(*piece),
{
    column_in_bounds(&piece.blocks[0]) && column_in_bounds(&piece.blocks[1]) && column_in_bounds(
        &piece.blocks[2],
    ) && column_in_bounds(&piece.blocks[3])
}

fn block_in_bounds(block: &Block) -> (inside: bool)
    ensures
        inside == in_grid(block.row as int, block.column as int),
{
    block.row >= 1 && block.row <= 20 && block.column >= 1 && block.column <= 10
}

/// Whether every block of `piece` has a row from 1 to 20 and a column from 1
/// to 10.
pub fn all_in_bounds(piece: &Piece) -> (inside: bool)
    ensures
        inside == fully_in_bounds(*piece),
{
    block_in_bounds(&piece.blocks[0]) && block_in_bounds(&piece.blocks[1]) && block_in_bounds(
        &piece.blocks[2],
    ) && block_in_bounds(&piece.blocks[3])
}

/// Whether `piece`, moved by `row_offset` rows, is above the bottom and lies
/// on no settled block.
pub fn can_move_rows<B: SetBlocks>(board: &B, piece: &Piece, row_offset: i8) -> (free: bool)
    requires
        piece.can_translate(row_offset as int, 0),
    ensures
        free == can_move(*board, *piece, row_offset as int),
{
    let moved = translate(piece, row_offset, 0);
    in_bounds_bottom_row(&moved) && !collides_with_set_blocks(board, &moved)
}

/// A fresh piece of any type does not lie on the board with all its blocks:
/// it has a block in row 0, above the first row.
pub proof fn lemma_fresh_piece_out_of_bounds(ty: PieceType)
    ensures
        !fully_in_bounds(spawn(ty)),
        above_bottom(spawn(ty)),
        within_columns(spawn(ty)),
{
}

} // verus!
