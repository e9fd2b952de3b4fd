//! The grid of settled blocks: 20 rows of 10 cells, rows and columns counted
//! from 1, row 1 at the top.

use crate::pieces::{block_at, Block};
use vstd::array::spec_array_update;
use vstd::prelude::*;

verus! {

/// The grid as one flat array, row after row.
pub type Board = [Option<Block>; 200];

/// `(row, column)` names a cell of the grid.
pub open spec fn in_grid(row: int, column: int) -> bool {
    1 <= row <= 20 && 1 <= column <= 10
}

/// The place of cell `(row, column)` in the flat array.
pub open spec fn spec_index(row: int, column: int) -> int {
    10 * (row - 1) + column - 1
}

/// The place of cell `(row, col)` in the flat array. For a cell of the grid
/// it lies between 0 and 199.
pub fn index(row: i8, col: i8) -> (i: isize)
    ensures
        i == spec_index(row as int, col as int),
        in_grid(row as int, col as int) ==> 0 <= i < 200,
{
    10 * ((row as isize) - 1) + (col as isize) - 1
}

/// The board with `block` written into the cell that its coordinates name.
pub open spec fn with_block(board: Board, block: Block) -> Board {
    spec_array_update(board, spec_index(block.row as int, block.column as int), Some(block))
}

/// A grid of settled blocks.
pub trait SetBlocks {
    /// What the grid holds at `(row, column)`.
    spec fn cell(&self, row: int, column: int) -> Option<Block>;

    /// Whether `(row, col)` is a cell of the grid that holds a block. Outside
    /// the grid the answer is `false`.
    fn has_block(&self, row: i8, col: i8) -> (occupied: bool)
        ensures
            occupied == (in_grid(row as int, col as int) && self.cell(row as int, col as int)
                is Some),
    ;

    /// The block at `(row, col)`; `None` for an empty cell and outside the
    /// grid.
    fn get(&self, row: i8, col: i8) -> (block: Option<Block>)
        ensures
            block == if in_grid(row as int, col as int) {
                self.cell(row as int, col as int)
            } else {
                None
            },
    ;

    /// Empties the cell `(row, col)`.
    fn remove(&mut self, row: i8, col: i8)
        requires
            in_grid(row as int, col as int),
        ensures
            final(self).cell(row as int, col as int) is None,
            forall|r: int, c: int|
                !(r == row && c == col) ==> final(self).cell(r, c) == old(self).cell(r, c),
    ;

    /// Writes `block` into the cell that its own coordinates name.
    fn set(&mut self, block: Block)
        requires
            in_grid(block.row as int, block.column as int),
        ensures
            final(self).cell(block.row as int, block.column as int) == Some(block),
            forall|r: int, c: int|
                !(r == block.row && c == block.column) ==> final(self).cell(r, c) == old(
                    self,
                ).cell(r, c),
    ;
}

impl SetBlocks for Board {
    open spec fn cell(&self, row: int, column: int) -> Option<Block> {
        if in_grid(row, column) {
            self@[spec_index(row, column)]
        } else {
            None
        }
    }

    fn has_block(&self, row: i8, col: i8) -> (occupied: bool) {
        if row < 1 || row > 20 || col < 1 || col > 10 {
            return false;
        }
        self[index(row, col) as usize].is_some()
    }

    fn get(&self, row: i8, col: i8) -> (block: Option<Block>) {
        if row < 1 || row > 20 || col < 1 || col > 10 {
            return None;
        }
        self[index(row, col) as usize]
    }

    fn remove(&mut self, row: i8, col: i8) {
        self[index(row, col) as usize] = None;
    }

    fn set(&mut self, block: Block)
        ensures
            *final(self) == with_block(*old(self), block),
    {
        self[index(block.row, block.column) as usize] = Some(block);
    }
}

/// The grid with no block in it.
pub fn empty_board() -> (board: Board)
    ensures
        forall|r: int, c: int| board.cell(r, c) is None,
{
    [None;200]
}

/// Every stored block carries the coordinates of the cell that holds it, and
/// nothing is stored outside the grid.
pub open spec fn well_formed<B: SetBlocks>(board: B) -> bool {
    forall|r: int, c: int|
        match #[trigger] board.cell(r, c) {
            Some(block) => in_grid(r, c) && block.row == r && block.column == c,
            None => true,
        }
}

/// The content of a cell after it has moved to `(row, column)`: the same
/// colour at the new coordinates, or nothing.
pub open spec fn moved_to(content: Option<Block>, row: int, column: int) -> Option<Block> {
    match content {
        Some(block) => Some(block_at(row, column, block.color)),
        None => None,
    }
}

} // verus!
