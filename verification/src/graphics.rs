//! What the game looks like on a terminal: the borders, the blocks, the
//! preview of the next piece and the score, as commands for the terminal.
//!
//! Nothing here writes to the terminal. A display turns what is to be shown
//! into a list of commands, and each command can be turned into the bytes
//! that the caller sends.

use crate::pieces::{Block, Color, Piece, PieceType};
use crate::scoring::Score;
use crate::tetris::Request;
use vstd::prelude::*;
use vstd::string::StringSliceAdditionalSpecFns;

verus! {

/// One command for the terminal.
#[derive(Clone, Copy, PartialEq, Eq, Debug)]
pub enum TermOp {
    /// Clear the whole screen.
    ClearTerminal,
    /// Back to the terminal's own colours.
    ResetGraphics,
    HideCursor,
    ShowCursor,
    /// Put the cursor at a row and column of the terminal, counted from 1.
    MoveCursor { row: i32, col: i32 },
    /// Set the background to the colour with this number in the palette.
    SetBackgroundColor { offset: u8 },
    /// Write the text at the cursor.
    Print(&'static str),
    /// Write the number at the cursor, in decimal.
    PrintNumber(i64),
    /// Send what was written to the terminal.
    Flush,
}

/// The row of the game in which the level is shown.
pub const LEVEL_ROW: i16 = 2;

/// The row of the game in which the bonus is shown.
pub const BONUS_ROW: i16 = 4;

/// The row of the game in which the score is shown.
pub const SCORE_ROW: i16 = 6;

/// The row of the game at which the next piece is shown.
pub const NEXT_ROW: i16 = 10;

/// The column of the game at which the information beside the board begins.
/// A display may shift it.
pub const BASE_INFO_COL: i16 = 14;

/// The command that puts the cursor at `(row, col)`.
pub open spec fn move_to(row: int, col: int) -> TermOp {
    TermOp::MoveCursor { row: row as i32, col: col as i32 }
}

/// `count` times the command `op`.
pub open spec fn repeated(op: TermOp, count: int) -> Seq<TermOp> {
    Seq::new(
        if count > 0 {
            count as nat
        } else {
            0
        },
        |i: int| op,
    )
}

/// The commands that draw the left and right border beside rows 1 to `rows`.
pub open spec fn side_border_ops(rows: int, cols: int, row_offset: int, column_offset: int) -> Seq<
    TermOp,
>
    decreases rows,
{
    if rows <= 0 {
        Seq::empty()
    } else {
        side_border_ops(rows - 1, cols, row_offset, column_offset) + seq![
            move_to(rows + row_offset, 1 + column_offset),
            TermOp::Print("<!"),
            move_to(rows + row_offset, 3 + cols + column_offset),
            TermOp::Print("!>"),
        ]
    }
}

/// The commands that draw the borders of a board of `rows` rows and `cols`
/// columns of the terminal: both sides, one row further down than the board,
/// then the floor and the row of spikes below it.
pub open spec fn border_ops(rows: int, cols: int, row_offset: int, column_offset: int) -> Seq<
    TermOp,
> {
    seq![TermOp::ResetGraphics] + side_border_ops(rows + 1, cols, row_offset, column_offset)
        + seq![move_to(rows + row_offset + 1, 3 + column_offset)] + repeated(
        TermOp::Print("="),
        cols,
    ) + seq![move_to(rows + row_offset + 2, 3 + column_offset)] + repeated(
        TermOp::Print("\\/"),
        cols / 2,
    )
}

/// Appends the commands that draw the borders.
fn print_borders(rows: i16, cols: i16, row_offset: i16, column_offset: i16, ops: &mut Vec<TermOp>)
    ensures
        final(ops)@ == old(ops)@ + border_ops(
            rows as int,
            cols as int,
            row_offset as int,
            column_offset as int,
        ),
{
    let ghost before = ops@;
    let rows: i32 = rows as i32;
    let cols: i32 = cols as i32;
    let row_offset: i32 = row_offset as i32;
    let column_offset: i32 = column_offset as i32;
    ops.push(TermOp::ResetGraphics);
    let ghost reset = ops@;
    // sides
    let mut row: i32 = 1;
    while row <= rows + 1
        invariant
            1 <= row,
            rows >= 0 ==> row <= rows + 2,
            rows < 0 ==> row == 1,
            -0x8000 <= rows < 0x8000,
            -0x8000 <= cols < 0x8000,
            -0x8000 <= row_offset < 0x8000,
            -0x8000 <= column_offset < 0x8000,
            ops@ == reset + side_border_ops(
                row - 1,
                cols as int,
                row_offset as int,
                column_offset as int,
            ),
        decreases rows + 2 - row,
    {
        ops.push(TermOp::MoveCursor { row: row + row_offset, col: 1 + column_offset });
        ops.push(TermOp::Print("<!"));
        ops.push(TermOp::MoveCursor { row: row + row_offset, col: 3 + cols + column_offset });
        ops.push(TermOp::Print("!>"));
        assert(ops@ =~= reset + side_border_ops(
            row as int,
            cols as int,
            row_offset as int,
            column_offset as int,
        ));
        row += 1;
    }
    assert(side_border_ops(row - 1, cols as int, row_offset as int, column_offset as int)
        == side_border_ops(rows + 1, cols as int, row_offset as int, column_offset as int)) by {
        if rows < 0 {
            lemma_no_side_border(rows + 1, cols as int, row_offset as int, column_offset as int);
        }
    }
    // bottom
    ops.push(TermOp::MoveCursor { row: rows + row_offset + 1, col: 3 + column_offset });
    let ghost floor = ops@;
    let mut col: i32 = 1;
    while col <= cols
        invariant
            1 <= col,
            cols >= 1 ==> col <= cols + 1,
            cols < 1 ==> col == 1,
            cols < 0x8000,
            ops@ == floor + repeated(TermOp::Print("="), col - 1),
        decreases cols + 1 - col,
    {
        ops.push(TermOp::Print("="));
        col += 1;
    }
    ops.push(TermOp::MoveCursor { row: rows + row_offset + 2, col: 3 + column_offset });
    let ghost spikes = ops@;
    let ghost mut drawn: int = 0;
    col = 1;
    while col <= cols - 1
        invariant
            col == 2 * drawn + 1,
            0 <= drawn,
            cols >= 2 ==> col <= cols + 1,
            cols < 2 ==> col == 1,
            -0x8000 <= cols < 0x8000,
            ops@ == spikes + repeated(TermOp::Print("\\/"), drawn),
        decreases cols + 1 - col,
    {
        ops.push(TermOp::Print("\\/"));
        proof {
            drawn = drawn + 1;
        }
        col += 2;
    }
    assert(repeated(TermOp::Print("\\/"), drawn) =~= repeated(
        TermOp::Print("\\/"),
        cols as int / 2,
    ));
    assert(ops@ =~= before + border_ops(
        rows as int,
        cols as int,
        row_offset as int,
        column_offset as int,
    ));
}

/// A board without rows has no side borders.
proof fn lemma_no_side_border(rows: int, cols: int, row_offset: int, column_offset: int)
    requires
        rows <= 0,
    ensures
        side_border_ops(rows, cols, row_offset, column_offset) == side_border_ops(
            0,
            cols,
            row_offset,
            column_offset,
        ),
{
}

/// Turns a row and column of the game into a row and column of the terminal.
pub trait Converter {
    /// Where `(row, col)` of the game lies on the terminal.
    spec fn terminal_of(&self, row: int, col: int) -> (int, int);

    fn to_terminal(&self, row: i16, col: i16) -> (at: (i32, i32))
        ensures
            at.0 == self.terminal_of(row as int, col as int).0,
            at.1 == self.terminal_of(row as int, col as int).1,
    ;
}

/// The command that puts the cursor where `converter` places `(row, col)` of
/// the game.
pub open spec fn move_to_game<T: Converter>(converter: &T, row: int, col: int) -> TermOp {
    move_to(converter.terminal_of(row, col).0, converter.terminal_of(row, col).1)
}

/// The commands that set up the screen: the borders and the labels of level,
/// bonus, score and next piece.
pub open spec fn init_ops_of<T: Converter>(
    converter: &T,
    terminal_rows: int,
    terminal_cols: int,
    terminal_row_offset: int,
    terminal_column_offset: int,
    info_col: int,
) -> Seq<TermOp> {
    seq![TermOp::ClearTerminal, TermOp::HideCursor] + border_ops(
        terminal_rows,
        terminal_cols,
        terminal_row_offset,
        terminal_column_offset,
    ) + seq![
        move_to_game(converter, LEVEL_ROW as int, info_col),
        TermOp::Print("Level:"),
        move_to_game(converter, BONUS_ROW as int, info_col),
        TermOp::Print("Bonus:"),
        move_to_game(converter, SCORE_ROW as int, info_col),
        TermOp::Print("Score:"),
        move_to_game(converter, NEXT_ROW as int, info_col),
        TermOp::Print("Next:"),
        TermOp::Flush,
    ]
}

/// The commands that leave the screen: colours and cursor are restored, and
/// the cursor is put in column 1 of the given row of the game.
pub open spec fn close_ops_of<T: Converter>(converter: &T, cursor_move_game_row: int) -> Seq<
    TermOp,
> {
    seq![
        TermOp::ResetGraphics,
        TermOp::ShowCursor,
        move_to_game(converter, cursor_move_game_row, 1),
    ]
}

/// The commands that write level, bonus and score, each followed by blanks
/// that cover what a longer number left behind.
pub open spec fn score_ops_of<T: Converter>(converter: &T, info_col: int, score: Score) -> Seq<
    TermOp,
> {
    seq![
        TermOp::ResetGraphics,
        move_to_game(converter, LEVEL_ROW as int, info_col),
        TermOp::PrintNumber(score.level as i64),
        TermOp::Print("   "),
        move_to_game(converter, BONUS_ROW as int, info_col),
        TermOp::PrintNumber(score.bonus),
        TermOp::Print("    "),
        move_to_game(converter, SCORE_ROW as int, info_col),
        TermOp::PrintNumber(score.score),
        TermOp::Print("    "),
    ]
}

fn move_cursor<T: Converter>(converter: &T, row: i16, col: i16) -> (op: TermOp)
    ensures
        op == move_to_game(converter, row as int, col as int),
{
    let (row, col) = converter.to_terminal(row, col);
    TermOp::MoveCursor { row, col }
}

fn init<T: Converter>(
    converter: &T,
    terminal_rows: i16,
    terminal_cols: i16,
    terminal_row_offset: i16,
    terminal_column_offset: i16,
    info_col: i16,
) -> (ops: Vec<TermOp>)
    ensures
        ops@ == init_ops_of(
            converter,
            terminal_rows as int,
            terminal_cols as int,
            terminal_row_offset as int,
            terminal_column_offset as int,
            info_col as int,
        ),
{
    let mut ops = Vec::new();
    ops.push(TermOp::ClearTerminal);
    ops.push(TermOp::HideCursor);
    print_borders(
        terminal_rows,
        terminal_cols,
        terminal_row_offset,
        terminal_column_offset,
        &mut ops,
    );
    ops.push(move_cursor(converter, LEVEL_ROW, info_col));
    ops.push(TermOp::Print("Level:"));
    ops.push(move_cursor(converter, BONUS_ROW, info_col));
    ops.push(TermOp::Print("Bonus:"));
    ops.push(move_cursor(converter, SCORE_ROW, info_col));
    ops.push(TermOp::Print("Score:"));
    ops.push(move_cursor(converter, NEXT_ROW, info_col));
    ops.push(TermOp::Print("Next:"));
    ops.push(TermOp::Flush);
    assert(ops@ =~= init_ops_of(
        converter,
        terminal_rows as int,
        terminal_cols as int,
        terminal_row_offset as int,
        terminal_column_offset as int,
        info_col as int,
    ));
    ops
}

fn close<T: Converter>(converter: &T, cursor_move_game_row: i16) -> (ops: Vec<TermOp>)
    ensures
        ops@ == close_ops_of(converter, cursor_move_game_row as int),
{
    let mut ops = Vec::new();
    ops.push(TermOp::ResetGraphics);
    ops.push(TermOp::ShowCursor);
    ops.push(move_cursor(converter, cursor_move_game_row, 1));
    ops
}

fn print_score<T: Converter>(converter: &T, info_col: i16, score: Score) -> (ops: Vec<TermOp>)
    ensures
        ops@ == score_ops_of(converter, info_col as int, score),
{
    let mut ops = Vec::new();
    ops.push(TermOp::ResetGraphics);
    ops.push(move_cursor(converter, LEVEL_ROW, info_col));
    ops.push(TermOp::PrintNumber(score.level as i64));
    ops.push(TermOp::Print("   "));
    ops.push(move_cursor(converter, BONUS_ROW, info_col));
    ops.push(TermOp::PrintNumber(score.bonus));
    ops.push(TermOp::Print("    "));
    ops.push(move_cursor(converter, SCORE_ROW, info_col));
    ops.push(TermOp::PrintNumber(score.score));
    ops.push(TermOp::Print("    "));
    ops
}

/// The bytes that begin every command: escape and an opening bracket.
pub open spec fn csi() -> Seq<u8> {
    seq![0x1Bu8, 0x5Bu8]
}

/// The decimal digits of `m` as characters.
pub open spec fn decimal_digits(m: nat) -> Seq<u8>
    decreases m,
{
    if m < 10 {
        seq![(0x30 + m) as u8]
    } else {
        decimal_digits(m / 10).push((0x30 + m % 10) as u8)
    }
}

/// `n` in decimal, with a minus sign before a negative number.
pub open spec fn decimal(n: int) -> Seq<u8> {
    if n < 0 {
        seq![0x2Du8] + decimal_digits((-n) as nat)
    } else {
        decimal_digits(n as nat)
    }
}

/// The bytes that a command is for the terminal. `Flush` is no bytes: it asks
/// for the bytes before it to be sent.
pub open spec fn encoded(op: TermOp) -> Seq<u8> {
    match op {
        TermOp::ClearTerminal => csi() + seq![0x32u8, 0x4Au8],
        TermOp::ResetGraphics => csi() + seq![0x30u8, 0x6Du8],
        TermOp::HideCursor => csi() + seq![0x3Fu8, 0x32u8, 0x35u8, 0x6Cu8],
        TermOp::ShowCursor => csi() + seq![0x3Fu8, 0x32u8, 0x35u8, 0x68u8],
        TermOp::MoveCursor { row, col } => csi() + decimal(row as int) + seq![0x3Bu8] + decimal(
            col as int,
        ) + seq![0x48u8],
        TermOp::SetBackgroundColor { offset } => csi() + decimal(40 + offset) + seq![0x6Du8],
        TermOp::Print(text) => text.spec_bytes(),
        TermOp::PrintNumber(number) => decimal(number as int),
        TermOp::Flush => Seq::empty(),
    }
}

/// Appends the decimal digits of `m`.
fn push_digits(out: &mut Vec<u8>, m: u64)
    ensures
        final(out)@ == old(out)@ + decimal_digits(m as nat),
    decreases m,
{
    if m >= 10 {
        push_digits(out, m / 10);
    }
    out.push(0x30 + (m % 10) as u8);
}

/// Appends `n` in decimal.
fn push_decimal(out: &mut Vec<u8>, n: i64)
    ensures
        final(out)@ == old(out)@ + decimal(n as int),
{
    if n < 0 {
        out.push(0x2D);
        let magnitude: u64 = (-(n + 1)) as u64 + 1;
        push_digits(out, magnitude);
    } else {
        push_digits(out, n as u64);
    }
}

/// Appends `bytes`.
fn push_bytes(out: &mut Vec<u8>, bytes: &[u8])
    ensures
        final(out)@ == old(out)@ + bytes@,
{
    let mut i: usize = 0;
    while i < bytes.len()
        invariant
            0 <= i <= bytes.len(),
            out@ == old(out)@ + bytes@.subrange(0, i as int),
        decreases bytes.len() - i,
    {
        out.push(bytes[i]);
        i += 1;
    }
}

/// The bytes that a command is for the terminal.
pub fn encode(op: &TermOp) -> (bytes: Vec<u8>)
    ensures
        bytes@ == encoded(*op),
{
    let mut bytes: Vec<u8> = Vec::new();
    match op {
        TermOp::ClearTerminal => {
            bytes.push(0x1B);
            bytes.push(0x5B);
            bytes.push(0x32);
            bytes.push(0x4A);
        },
        TermOp::ResetGraphics => {
            bytes.push(0x1B);
            bytes.push(0x5B);
            bytes.push(0x30);
            bytes.push(0x6D);
        },
        TermOp::HideCursor => {
            bytes.push(0x1B);
            bytes.push(0x5B);
            bytes.push(0x3F);
            bytes.push(0x32);
            bytes.push(0x35);
            bytes.push(0x6C);
        },
        TermOp::ShowCursor => {
            bytes.push(0x1B);
            bytes.push(0x5B);
            bytes.push(0x3F);
            bytes.push(0x32);
            bytes.push(0x35);
            bytes.push(0x68);
        },
        TermOp::MoveCursor { row, col } => {
            bytes.push(0x1B);
            bytes.push(0x5B);
            push_decimal(&mut bytes, *row as i64);
            bytes.push(0x3B);
            push_decimal(&mut bytes, *col as i64);
            bytes.push(0x48);
        },
        TermOp::SetBackgroundColor { offset } => {
            bytes.push(0x1B);
            bytes.push(0x5B);
            push_decimal(&mut bytes, 40 + *offset as i64);
            bytes.push(0x6D);
        },
        TermOp::Print(text) => {
            push_bytes(&mut bytes, text.as_bytes());
        },
        TermOp::PrintNumber(number) => {
            push_decimal(&mut bytes, *number);
        },
        TermOp::Flush => {},
    }
    bytes
}

/// `block` in the background colour.
pub open spec fn blank(block: Block) -> Block {
    Block { row: block.row, column: block.column, color: Color::Black }
}

/// `piece` with every block in the background colour.
pub open spec fn blank_piece(piece: Piece) -> Piece {
    Piece {
        ty: piece.ty,
        rotate: piece.rotate,
        blocks: [
            blank(piece.blocks[0]),
            blank(piece.blocks[1]),
            blank(piece.blocks[2]),
            blank(piece.blocks[3]),
        ],
    }
}

/// Appends `more` to `ops`.
fn append(ops: &mut Vec<TermOp>, more: &Vec<TermOp>)
    ensures
        final(ops)@ == old(ops)@ + more@,
{
    let mut i: usize = 0;
    while i < more.len()
        invariant
            0 <= i <= more.len(),
            ops@ == old(ops)@ + more@.subrange(0, i as int),
        decreases more.len() - i,
    {
        ops.push(more[i]);
        i += 1;
    }
}

/// A way to show the game on a terminal.
pub trait Display {
    /// The commands that set up the screen.
    spec fn init_ops(&self) -> Seq<TermOp>;

    /// The commands that leave the screen.
    spec fn close_ops(&self) -> Seq<TermOp>;

    /// The commands that write level, bonus and score.
    spec fn score_ops(&self, score: Score) -> Seq<TermOp>;

    /// The commands that draw one block of the board. A block above the
    /// first row or left of the first column is not drawn.
    spec fn block_ops(&self, block: Block) -> Seq<TermOp>;

    /// The commands that draw the piece in the preview.
    spec fn next_piece_ops(&self, piece: Piece) -> Seq<TermOp>;

    fn init(&self) -> (ops: Vec<TermOp>)
        ensures
            ops@ == self.init_ops(),
    ;

    fn close(&self) -> (ops: Vec<TermOp>)
        ensures
            ops@ == self.close_ops(),
    ;

    fn print_score(&self, score: Score) -> (ops: Vec<TermOp>)
        ensures
            ops@ == self.score_ops(score),
    ;

    fn print_block(&self, block: Block) -> (ops: Vec<TermOp>)
        ensures
            ops@ == self.block_ops(block),
    ;

    fn print_next_piece(&self, piece: &Piece) -> (ops: Vec<TermOp>)
        ensures
            ops@ == self.next_piece_ops(*piece),
    ;

    /// Draws the four blocks of the falling piece.
    fn print_piece(&self, piece: &Piece) -> (ops: Vec<TermOp>)
        ensures
            ops@ == self.block_ops(piece.blocks[0]) + self.block_ops(piece.blocks[1])
                + self.block_ops(piece.blocks[2]) + self.block_ops(piece.blocks[3]),
    {
        let mut ops = self.print_block(piece.blocks[0]);
        append(&mut ops, &self.print_block(piece.blocks[1]));
        append(&mut ops, &self.print_block(piece.blocks[2]));
        append(&mut ops, &self.print_block(piece.blocks[3]));
        ops
    }

    fn flush(&self) -> (ops: Vec<TermOp>)
        ensures
            ops@ == seq![TermOp::Flush],
    {
        let mut ops = Vec::new();
        ops.push(TermOp::Flush);
        ops
    }

    /// Draws the cell `(row, col)` in the background colour.
    fn erase_block(&self, row: i8, col: i8) -> (ops: Vec<TermOp>)
        ensures
            ops@ == self.block_ops(Block { row, column: col, color: Color::Black }),
    {
        self.print_block(Block { row, column: col, color: Color::Black })
    }

    /// Draws the cells of the falling piece in the background colour.
    fn erase_piece(&self, piece: &Piece) -> (ops: Vec<TermOp>)
        ensures
            ops@ == self.block_ops(blank(piece.blocks[0])) + self.block_ops(
                blank(piece.blocks[1]),
            ) + self.block_ops(blank(piece.blocks[2])) + self.block_ops(blank(piece.blocks[3])),
    {
        let mut ops = self.erase_block(piece.blocks[0].row, piece.blocks[0].column);
        append(&mut ops, &self.erase_block(piece.blocks[1].row, piece.blocks[1].column));
        append(&mut ops, &self.erase_block(piece.blocks[2].row, piece.blocks[2].column));
        append(&mut ops, &self.erase_block(piece.blocks[3].row, piece.blocks[3].column));
        ops
    }

    /// Draws the piece in the preview in the background colour.
    fn erase_next_piece(&self, piece: &Piece) -> (ops: Vec<TermOp>)
        ensures
            ops@ == self.next_piece_ops(blank_piece(*piece)),
    {
        let erase = Piece {
            ty: piece.ty,
            rotate: piece.rotate,
            blocks: [
                Block {
                    row: piece.blocks[0].row,
                    column: piece.blocks[0].column,
                    color: Color::Black,
                },
                Block {
                    row: piece.blocks[1].row,
                    column: piece.blocks[1].column,
                    color: Color::Black,
                },
                Block {
                    row: piece.blocks[2].row,
                    column: piece.blocks[2].column,
                    color: Color::Black,
                },
                Block {
                    row: piece.blocks[3].row,
                    column: piece.blocks[3].column,
                    color: Color::Black,
                },
            ],
        };
        self.print_next_piece(&erase)
    }
}

/// What the display draws for a request of the game. A request to store the
/// score draws nothing.
pub open spec fn request_ops<D: Display>(display: &D, request: Request) -> Seq<TermOp> {
    match request {
        Request::PrintBlock(block) => display.block_ops(block),
        Request::EraseBlock { row, col } => display.block_ops(
            Block { row, column: col, color: Color::Black },
        ),
        Request::PrintPiece(piece) => display.block_ops(piece.blocks[0]) + display.block_ops(
            piece.blocks[1],
        ) + display.block_ops(piece.blocks[2]) + display.block_ops(piece.blocks[3]),
        Request::ErasePiece(piece) => display.block_ops(blank(piece.blocks[0]))
            + display.block_ops(blank(piece.blocks[1])) + display.block_ops(
            blank(piece.blocks[2]),
        ) + display.block_ops(blank(piece.blocks[3])),
        Request::PrintNextPiece(piece) => display.next_piece_ops(piece),
        Request::EraseNextPiece(piece) => display.next_piece_ops(blank_piece(piece)),
        Request::PrintScore(score) => display.score_ops(score),
        Request::Flush => seq![TermOp::Flush],
        Request::StoreScore(_) => Seq::empty(),
    }
}

/// The commands with which `display` carries out a request of the game.
pub fn perform<D: Display>(display: &D, request: &Request) -> (ops: Vec<TermOp>)
    ensures
        ops@ == request_ops(display, *request),
{
    match request {
        Request::PrintBlock(block) => display.print_block(*block),
        Request::EraseBlock { row, col } => display.erase_block(*row, *col),
        Request::PrintPiece(piece) => display.print_piece(piece),
        Request::ErasePiece(piece) => display.erase_piece(piece),
        Request::PrintNextPiece(piece) => display.print_next_piece(piece),
        Request::EraseNextPiece(piece) => display.erase_next_piece(piece),
        Request::PrintScore(score) => display.print_score(*score),
        Request::Flush => display.flush(),
        Request::StoreScore(_) => Vec::new(),
    }
}

/// Shows every cell of the game as two columns of one row of the terminal.
#[derive(Clone, Copy, Debug)]
pub struct StandardDisplay;

/// Rows of the terminal above the first row of the game.
pub const STD_ROW_OFFSET: i16 = 2;

/// Columns of the terminal left of the left border.
pub const STD_COLUMN_OFFSET: i16 = 3;

/// Columns of the terminal that a side border takes.
pub const STD_BORDER_COLUMNS: i16 = 2;

/// The column of the game, less the piece's own, at which the next piece of
/// type `ty` is shown: the two types that are spawned further right are
/// shown one column further left.
pub open spec fn std_next_col_offset(ty: PieceType) -> int {
    match ty {
        PieceType::O | PieceType::S => 13,
        _ => 14,
    }
}

impl Converter for StandardDisplay {
    open spec fn terminal_of(&self, row: int, col: int) -> (int, int) {
        (row + STD_ROW_OFFSET, 2 * col + STD_BORDER_COLUMNS - 1 + STD_COLUMN_OFFSET)
    }

    fn to_terminal(&self, row: i16, col: i16) -> (at: (i32, i32)) {
        (
            row as i32 + STD_ROW_OFFSET as i32,
            2 * (col as i32) + STD_BORDER_COLUMNS as i32 - 1 + STD_COLUMN_OFFSET as i32,
        )
    }
}

impl StandardDisplay {
    /// The commands that draw the cell `(row, col)` of the game in `color`.
    pub open spec fn cell_ops(&self, row: int, col: int, color: Color) -> Seq<TermOp> {
        seq![
            move_to_game(self, row, col),
            TermOp::SetBackgroundColor { offset: color.code() },
            TermOp::Print("  "),
        ]
    }

    /// Appends the commands that draw the cell `(row, col)` of the game in
    /// `color`.
    fn print_cell(&self, row: i16, col: i16, color: Color, ops: &mut Vec<TermOp>)
        ensures
            final(ops)@ == old(ops)@ + self.cell_ops(row as int, col as int, color),
    {
        ops.push(move_cursor(self, row, col));
        ops.push(TermOp::SetBackgroundColor { offset: color.code() });
        ops.push(TermOp::Print("  "));
    }

    /// The commands that draw `block` in the preview of a piece of type `ty`.
    pub open spec fn next_block_ops(&self, ty: PieceType, block: Block) -> Seq<TermOp> {
        self.cell_ops(
            NEXT_ROW + block.row,
            std_next_col_offset(ty) + block.column,
            block.color,
        )
    }

    /// The commands that draw the first `count` blocks of `piece` in the
    /// preview.
    pub open spec fn next_blocks_ops(&self, piece: Piece, count: int) -> Seq<TermOp>
        decreases count,
    {
        if count <= 0 {
            Seq::empty()
        } else {
            self.next_blocks_ops(piece, count - 1) + self.next_block_ops(
                piece.ty,
                piece.blocks[count - 1],
            )
        }
    }
}

impl Display for StandardDisplay {
    open spec fn init_ops(&self) -> Seq<TermOp> {
        init_ops_of(
            self,
            20,
            20,
            STD_ROW_OFFSET as int,
            STD_COLUMN_OFFSET as int,
            BASE_INFO_COL as int,
        )
    }

    open spec fn close_ops(&self) -> Seq<TermOp> {
        close_ops_of(self, 23)
    }

    open spec fn score_ops(&self, score: Score) -> Seq<TermOp> {
        score_ops_of(self, BASE_INFO_COL + 4, score)
    }

    open spec fn block_ops(&self, block: Block) -> Seq<TermOp> {
        if block.row < 1 || block.column < 1 {
            Seq::empty()
        } else {
            self.cell_ops(block.row as int, block.column as int, block.color)
        }
    }

    open spec fn next_piece_ops(&self, piece: Piece) -> Seq<TermOp> {
        self.next_blocks_ops(piece, 4)
    }

    fn init(&self) -> (ops: Vec<TermOp>) {
        init(self, 20, 20, STD_ROW_OFFSET, STD_COLUMN_OFFSET, BASE_INFO_COL)
    }

    fn close(&self) -> (ops: Vec<TermOp>) {
        close(self, 23)
    }

    fn print_score(&self, score: Score) -> (ops: Vec<TermOp>) {
        print_score(self, BASE_INFO_COL + 4, score)
    }

    fn print_block(&self, block: Block) -> (ops: Vec<TermOp>) {
        let mut ops = Vec::new();
        if block.row < 1 || block.column < 1 {
            return ops;
        }
        self.print_cell(block.row as i16, block.column as i16, block.color, &mut ops);
        ops
    }

    fn print_next_piece(&self, piece: &Piece) -> (ops: Vec<TermOp>) {
        let col_offset: i16 = match piece.ty {
            PieceType::O | PieceType::S => 13,
            _ => 14,
        };
        let mut ops = Vec::new();
        let mut i: usize = 0;
        while i < 4
            invariant
                0 <= i <= 4,
                col_offset == std_next_col_offset(piece.ty),
                ops@ == self.next_blocks_ops(*piece, i as int),
            decreases 4 - i,
        {
            let block = piece.blocks[i];
            self.print_cell(
                NEXT_ROW + block.row as i16,
                col_offset + block.column as i16,
                block.color,
                &mut ops,
            );
            i += 1;
        }
        ops
    }
}

/// Shows every cell of the game as four columns of two rows of the terminal.
#[derive(Clone, Copy, Debug)]
pub struct DoubleDisplay;

/// Rows of the terminal above the first row of the game.
pub const DBL_ROW_OFFSET: i16 = 2;

/// Columns of the terminal left of the left border.
pub const DBL_COLUMN_OFFSET: i16 = 30;

/// Columns of the terminal that a side border takes.
pub const DBL_BORDER_COLUMNS: i16 = 2;

/// The column of the game, less the piece's own, at which the next piece of
/// type `ty` is shown: the two types that are spawned further right are
/// shown one column further left.
pub open spec fn dbl_next_col_offset(ty: PieceType) -> int {
    match ty {
        PieceType::O | PieceType::S => 10,
        _ => 11,
    }
}

impl Converter for DoubleDisplay {
    open spec fn terminal_of(&self, row: int, col: int) -> (int, int) {
        (2 * row + DBL_ROW_OFFSET, 4 * col - 3 + DBL_BORDER_COLUMNS + DBL_COLUMN_OFFSET)
    }

    fn to_terminal(&self, row: i16, col: i16) -> (at: (i32, i32)) {
        (
            2 * (row as i32) + DBL_ROW_OFFSET as i32,
            4 * (col as i32) - 3 + DBL_BORDER_COLUMNS as i32 + DBL_COLUMN_OFFSET as i32,
        )
    }
}

impl DoubleDisplay {
    /// The commands that draw the cell `(row, col)` of the game in `color`.
    pub open spec fn cell_ops(&self, row: int, col: int, color: Color) -> Seq<TermOp> {
        seq![
            move_to_game(self, row, col),
            TermOp::SetBackgroundColor { offset: color.code() },
            TermOp::Print("    "),
            move_to(
                2 * row - 1 + DBL_ROW_OFFSET,
                4 * col - 3 + DBL_BORDER_COLUMNS + DBL_COLUMN_OFFSET,
            ),
            TermOp::Print("    "),
        ]
    }

    /// Appends the commands that draw the cell `(row, col)` of the game in
    /// `color`.
    fn print_cell(&self, row: i16, col: i16, color: Color, ops: &mut Vec<TermOp>)
        ensures
            final(ops)@ == old(ops)@ + self.cell_ops(row as int, col as int, color),
    {
        ops.push(move_cursor(self, row, col));
        ops.push(TermOp::SetBackgroundColor { offset: color.code() });
        ops.push(TermOp::Print("    "));
        ops.push(
            TermOp::MoveCursor {
                row: 2 * (row as i32) - 1 + DBL_ROW_OFFSET as i32,
                col: 4 * (col as i32) - 3 + DBL_BORDER_COLUMNS as i32 + DBL_COLUMN_OFFSET as i32,
            },
        );
        ops.push(TermOp::Print("    "));
    }

    /// The commands that draw `block` in the preview of a piece of type `ty`.
    pub open spec fn next_block_ops(&self, ty: PieceType, block: Block) -> Seq<TermOp> {
        self.cell_ops(
            NEXT_ROW + block.row,
            dbl_next_col_offset(ty) + block.column,
            block.color,
        )
    }

    /// The commands that draw the first `count` blocks of `piece` in the
    /// preview.
    pub open spec fn next_blocks_ops(&self, piece: Piece, count: int) -> Seq<TermOp>
        decreases count,
    {
        if count <= 0 {
            Seq::empty()
        } else {
            self.next_blocks_ops(piece, count - 1) + self.next_block_ops(
                piece.ty,
                piece.blocks[count - 1],
            )
        }
    }
}

impl Display for DoubleDisplay {
    open spec fn init_ops(&self) -> Seq<TermOp> {
        init_ops_of(
            self,
            40,
            40,
            DBL_ROW_OFFSET as int,
            DBL_COLUMN_OFFSET as int,
            BASE_INFO_COL - 1,
        )
    }

    open spec fn close_ops(&self) -> Seq<TermOp> {
        close_ops_of(self, 22)
    }

    open spec fn score_ops(&self, score: Score) -> Seq<TermOp> {
        score_ops_of(self, BASE_INFO_COL + 1, score)
    }

    open spec fn block_ops(&self, block: Block) -> Seq<TermOp> {
        if block.row < 1 || block.column < 1 {
            Seq::empty()
        } else {
            self.cell_ops(block.row as int, block.column as int, block.color)
        }
    }

    open spec fn next_piece_ops(&self, piece: Piece) -> Seq<TermOp> {
        self.next_blocks_ops(piece, 4)
    }

    fn init(&self) -> (ops: Vec<TermOp>) {
        init(self, 40, 40, DBL_ROW_OFFSET, DBL_COLUMN_OFFSET, BASE_INFO_COL - 1)
    }

    fn close(&self) -> (ops: Vec<TermOp>) {
        close(self, 22)
    }

    fn print_score(&self, score: Score) -> (ops: Vec<TermOp>) {
        print_score(self, BASE_INFO_COL + 1, score)
    }

    fn print_block(&self, block: Block) -> (ops: Vec<TermOp>) {
        let mut ops = Vec::new();
        if block.row < 1 || block.column < 1 {
            return ops;
        }
        self.print_cell(block.row as i16, block.column as i16, block.color, &mut ops);
        ops
    }

    fn print_next_piece(&self, piece: &Piece) -> (ops: Vec<TermOp>) {
        let col_offset: i16 = match piece.ty {
            PieceType::O | PieceType::S => 10,
            _ => 11,
        };
        let mut ops = Vec::new();
        let mut i: usize = 0;
        while i < 4
            invariant
                0 <= i <= 4,
                col_offset == dbl_next_col_offset(piece.ty),
                ops@ == self.next_blocks_ops(*piece, i as int),
            decreases 4 - i,
        {
            let block = piece.blocks[i];
            self.print_cell(
                NEXT_ROW + block.row as i16,
                col_offset + block.column as i16,
                block.color,
                &mut ops,
            );
            i += 1;
        }
        ops
    }
}

} // verus!
