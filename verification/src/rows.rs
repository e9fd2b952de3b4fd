//! Completed rows: finding them, counting them, and clearing them so that
//! everything above drops down.

use crate::pieces::Block;
use crate::set_blocks::{in_grid, moved_to, well_formed, SetBlocks};
use vstd::prelude::*;

verus! {

/// Row `row` is a row of the grid and each of its ten cells holds a block.
pub open spec fn row_complete<B: SetBlocks>(board: B, row: int) -> bool {
    &&& 1 <= row <= 20
    &&& forall|c: int| 1 <= c <= 10 ==> (#[trigger] board.cell(row, c)) is Some
}

/// The number of complete rows below row `row`.
#[verifier::opaque]
pub open spec fn complete_below<B: SetBlocks>(board: B, row: int) -> int
    decreases 20 - row,
{
    if row >= 20 {
        0
    } else {
        complete_below(board, row + 1) + if row_complete(board, row + 1) {
            1int
        } else {
            0int
        }
    }
}

/// Row `row + 1` counts among the complete rows below `row` exactly if it is
/// complete, and no row lies below row 20.
pub proof fn lemma_complete_below_unfold<B: SetBlocks>(board: B, row: int)
    ensures
        row >= 20 ==> complete_below(board, row) == 0,
        row < 20 && row_complete(board, row + 1) ==> complete_below(board, row) == complete_below(
            board,
            row + 1,
        ) + 1,
        row < 20 && !row_complete(board, row + 1) ==> complete_below(board, row)
            == complete_below(board, row + 1),
{
    reveal(complete_below);
}

/// The number of complete rows of the grid.
pub open spec fn completed_row_count<B: SetBlocks>(board: B) -> int {
    complete_below(board, 0)
}

/// What cell `(r, c)` holds once the rows above `row` have dropped into it,
/// before row 1 is emptied.
pub open spec fn cell_after_drop<B: SetBlocks>(before: B, row: int, r: int, c: int) -> Option<
    Block,
> {
    if 1 <= c <= 10 && 2 <= r <= row {
        moved_to(before.cell(r - 1, c), r, c)
    } else {
        before.cell(r, c)
    }
}

/// What cell `(r, c)` holds once row `row` has been cleared: rows 2 to `row`
/// hold what stood one row higher, row 1 is empty, all else is as before.
pub open spec fn cell_after_clear<B: SetBlocks>(before: B, row: int, r: int, c: int) -> Option<
    Block,
> {
    if r == 1 && 1 <= c <= 10 {
        None
    } else {
        cell_after_drop(before, row, r, c)
    }
}

/// The content of a cell of row `from` once it has dropped to row `to` of
/// column `c`: unchanged where the row did not move.
pub open spec fn dropped(content: Option<Block>, from: int, to: int, c: int) -> Option<Block> {
    if to == from {
        content
    } else {
        moved_to(content, to, c)
    }
}

/// Whether all ten cells of `row` hold a block.
pub fn is_row_set<B: SetBlocks>(board: &B, row: i8) -> (complete: bool)
    ensures
        complete == row_complete(*board, row as int),
{
    let mut col: i8 = 1;
    while board.has_block(row, col)
        invariant
            1 <= col <= 11,
            col > 1 ==> 1 <= row <= 20,
            forall|c: int| 1 <= c < col ==> (#[trigger] board.cell(row as int, c)) is Some,
        decreases 11 - col,
    {
        col += 1;
    }
    col == 11
}

/// The number of rows whose ten cells all hold a block.
pub fn set_row_count<B: SetBlocks>(board: &B) -> (count: i64)
    ensures
        count == completed_row_count(*board),
        0 <= count <= 20,
{
    let mut count: i64 = 0;
    let mut row: i8 = 1;
    while row <= 20
        invariant
            1 <= row <= 21,
            0 <= count < row,
            count + complete_below(*board, row - 1) == completed_row_count(*board),
        decreases 21 - row,
    {
        proof {
            lemma_complete_below_unfold(*board, row - 1);
        }
        if is_row_set(board, row) {
            count += 1;
        }
        row += 1;
    }
    proof {
        lemma_complete_below_unfold(*board, 20);
    }
    count
}

/// Clears row `row`: in each column, from `row` up to row 2, every cell takes
/// the content of the cell above it; then row 1 is emptied.
pub fn clear_row<B: SetBlocks>(board: &mut B, row: i8)
    requires
        1 <= row <= 20,
    ensures
        forall|r: int, c: int| #[trigger]
            final(board).cell(r, c) == cell_after_clear(*old(board), row as int, r, c),
        well_formed(*old(board)) ==> well_formed(*final(board)),
{
    let ghost before = *board;
    let mut col: i8 = 1;
    while col <= 10
        invariant
            1 <= col <= 11,
            1 <= row <= 20,
            forall|r: int, c: int| #[trigger]
                board.cell(r, c) == if c < col {
                    cell_after_drop(before, row as int, r, c)
                } else {
                    before.cell(r, c)
                },
        decreases 11 - col,
    {
        let mut r: i8 = row;
        while r >= 2
            invariant
                1 <= r <= row <= 20,
                1 <= col <= 10,
                forall|q: int, c: int| #[trigger]
                    board.cell(q, c) == if c < col || (c == col && q > r) {
                        cell_after_drop(before, row as int, q, c)
                    } else {
                        before.cell(q, c)
                    },
            decreases r,
        {
            match board.get(r - 1, col) {
                None => board.remove(r, col),
                Some(block) => board.set(Block { row: r, column: col, color: block.color }),
            }
            r -= 1;
        }
        col += 1;
    }
    let mut col: i8 = 1;
    while col <= 10
        invariant
            1 <= col <= 11,
            1 <= row <= 20,
            forall|r: int, c: int| #[trigger]
                board.cell(r, c) == if r == 1 && 1 <= c < col {
                    None
                } else {
                    cell_after_drop(before, row as int, r, c)
                },
        decreases 11 - col,
    {
        board.remove(1, col);
        col += 1;
    }
}

/// Between two rows there are no more complete rows than rows, and one fewer
/// if the lower of the two is not complete.
proof fn lemma_complete_between<B: SetBlocks>(board: B, upper: int, lower: int)
    requires
        0 <= upper <= lower <= 20,
    ensures
        0 <= complete_below(board, upper) - complete_below(board, lower) <= lower - upper,
        upper < lower && !row_complete(board, lower) ==> complete_below(board, upper)
            - complete_below(board, lower) < lower - upper,
    decreases lower - upper,
{
    if upper < lower {
        lemma_complete_below_unfold(board, upper);
        lemma_complete_between(board, upper + 1, lower);
    }
}

/// The state of a pass that clears the complete rows from the bottom up,
/// when it is about to look at row `row` and has cleared `cleared` rows:
/// how `current` relates to the grid `before` the pass.
spec fn clearing<B: SetBlocks>(before: B, current: B, row: int, cleared: int) -> bool {
    &&& 0 <= row <= 20
    &&& 0 <= cleared <= 20
    &&& cleared == complete_below(before, if row > cleared { row - cleared } else { 0 })
    &&& forall|q: int, c: int|
        in_grid(q, c) && row - cleared < q && !row_complete(before, q) ==> current.cell(
            q + complete_below(before, q),
            c,
        ) == dropped(#[trigger] before.cell(q, c), q, q + complete_below(before, q), c)
    &&& forall|q: int, c: int|
        1 <= q <= row - cleared && 1 <= c <= 10 ==> current.cell(q + cleared, c) == dropped(
            #[trigger] before.cell(q, c),
            q,
            q + cleared,
            c,
        )
    &&& forall|r: int, c: int|
        1 <= r <= cleared && 1 <= c <= 10 ==> (#[trigger] current.cell(r, c)) is None
    &&& forall|r: int| row < r ==> !row_complete(current, r)
    &&& forall|r: int, c: int|
        !in_grid(r, c) ==> current.cell(r, c) == #[trigger] before.cell(r, c)
}

/// The row that the pass looks at holds what row `row - cleared` held before
/// the pass, so the one is complete exactly if the other is.
proof fn lemma_same_row<B: SetBlocks>(before: B, current: B, row: int, cleared: int)
    requires
        clearing(before, current, row, cleared),
        1 <= row,
    ensures
        row_complete(current, row) <==> row > cleared && row_complete(before, row - cleared),
{
    let source = row - cleared;
    if source >= 1 {
        if row_complete(before, source) {
            assert forall|c: int| 1 <= c <= 10 implies (#[trigger] current.cell(row, c))
                is Some by {
                assert(before.cell(source, c) is Some);
            }
        }
        if row_complete(current, row) {
            assert forall|c: int| 1 <= c <= 10 implies (#[trigger] before.cell(source, c))
                is Some by {}
        }
    } else {
        assert(current.cell(row, 1) is None);
    }
}

/// A row that is not complete stays where it is, and the pass moves on to
/// the row above it.
proof fn lemma_skip_row<B: SetBlocks>(before: B, current: B, row: int, cleared: int)
    requires
        clearing(before, current, row, cleared),
        1 <= row,
        !row_complete(current, row),
    ensures
        clearing(before, current, row - 1, cleared),
{
    lemma_same_row(before, current, row, cleared);
    let source = row - cleared;
    if source >= 1 {
        lemma_complete_below_unfold(before, source - 1);
    }
    assert forall|q: int, c: int|
        in_grid(q, c) && row - 1 - cleared < q && !row_complete(before, q) implies current.cell(
        q + complete_below(before, q),
        c,
    ) == dropped(#[trigger] before.cell(q, c), q, q + complete_below(before, q), c) by {}
}

/// Once a complete row has been cleared, the rows above it have dropped by
/// one more row and the pass looks at the same row again.
proof fn lemma_after_clear<B: SetBlocks>(before: B, current: B, next: B, row: int, cleared: int)
    requires
        clearing(before, current, row, cleared),
        1 <= row,
        row_complete(current, row),
        forall|r: int, c: int| #[trigger] next.cell(r, c) == cell_after_clear(current, row, r, c),
    ensures
        clearing(before, next, row, cleared + 1),
{
    lemma_same_row(before, current, row, cleared);
    let source = row - cleared;
    lemma_complete_below_unfold(before, source - 1);
    lemma_complete_between(before, source - 1, 20);
    lemma_complete_below_unfold(before, 20);
    assert forall|q: int, c: int|
        in_grid(q, c) && row - (cleared + 1) < q && !row_complete(before, q) implies next.cell(
        q + complete_below(before, q),
        c,
    ) == dropped(#[trigger] before.cell(q, c), q, q + complete_below(before, q), c) by {
        lemma_complete_between(before, source, q);
    }
    assert forall|q: int, c: int| 1 <= q <= row - (cleared + 1) && 1 <= c <= 10 implies next.cell(
        q + (cleared + 1),
        c,
    ) == dropped(#[trigger] before.cell(q, c), q, q + (cleared + 1), c) by {
        assert(next.cell(q + cleared + 1, c) == moved_to(
            current.cell(q + cleared, c),
            q + cleared + 1,
            c,
        ));
    }
    assert forall|r: int, c: int| 1 <= r <= cleared + 1 && 1 <= c <= 10 implies (
    #[trigger] next.cell(r, c)) is None by {}
    assert forall|r: int| row < r implies !row_complete(next, r) by {
        if row_complete(next, r) {
            assert forall|c: int| 1 <= c <= 10 implies (#[trigger] current.cell(r, c))
                is Some by {
                assert(next.cell(r, c) is Some);
            }
            assert(row_complete(current, r));
        }
    }
}

/// `after` is `before` with every complete row cleared: each row that was
/// not complete has dropped by the number of complete rows that lay below
/// it, as many rows at the top are empty as were complete, and nothing
/// outside the grid has changed.
pub open spec fn cleared<B: SetBlocks>(before: B, after: B) -> bool {
    &&& forall|q: int, c: int|
        in_grid(q, c) && !row_complete(before, q) ==> after.cell(
            q + complete_below(before, q),
            c,
        ) == dropped(#[trigger] before.cell(q, c), q, q + complete_below(before, q), c)
    &&& forall|r: int, c: int|
        1 <= r <= completed_row_count(before) && 1 <= c <= 10 ==> (#[trigger] after.cell(r, c))
            is None
    &&& forall|r: int, c: int| !in_grid(r, c) ==> after.cell(r, c) == #[trigger] before.cell(r, c)
}

/// Clears every complete row in one pass from the bottom row upwards. Each
/// row that is not complete drops by the number of complete rows below it,
/// and as many rows at the top are left empty as were cleared.
pub fn clear_set_rows<B: SetBlocks>(board: &mut B)
    ensures
        cleared(*old(board), *final(board)),
        forall|r: int| !row_complete(*final(board), r),
        completed_row_count(*final(board)) == 0,
        well_formed(*old(board)) ==> well_formed(*final(board)),
{
    let ghost before = *board;
    let ghost mut cleared: int = 0;
    let mut row: i8 = 20;
    proof {
        lemma_complete_below_unfold(before, 20);
    }
    while row >= 1
        invariant
            clearing(before, *board, row as int, cleared),
            well_formed(before) ==> well_formed(*board),
        decreases row + 20 - cleared,
    {
        let ghost current = *board;
        if is_row_set(board, row) {
            clear_row(board, row);
            proof {
                lemma_after_clear(before, current, *board, row as int, cleared);
                cleared = cleared + 1;
            }
        } else {
            proof {
                lemma_skip_row(before, current, row as int, cleared);
            }
            row -= 1;
        }
    }
    proof {
        lemma_none_complete(*board, 0);
    }
}

/// A complete row is counted.
pub proof fn lemma_complete_rows_counted<B: SetBlocks>(board: B, row: int)
    requires
        row_complete(board, row),
    ensures
        completed_row_count(board) > 0,
{
    lemma_complete_between(board, 0, row - 1);
    lemma_complete_below_unfold(board, row - 1);
    lemma_complete_between(board, row, 20);
    lemma_complete_below_unfold(board, 20);
}

/// A grid in which no row is complete has no complete rows to count.
proof fn lemma_none_complete<B: SetBlocks>(board: B, row: int)
    requires
        forall|r: int| !row_complete(board, r),
    ensures
        complete_below(board, row) == 0,
    decreases 20 - row,
{
    lemma_complete_below_unfold(board, row);
    if row < 20 {
        lemma_none_complete(board, row + 1);
    }
}

} // verus!
