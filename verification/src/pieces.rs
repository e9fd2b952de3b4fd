//! The seven tetrominoes: their spawn layouts, their rotation tables and the
//! pure transforms that turn and move a piece.
//!
//! A piece is a value. Every transform builds a new piece and leaves the old
//! one untouched.

use vstd::prelude::*;

verus! {

/// The eight terminal colours. `Black` is the background colour and is used
/// to erase a cell.
#[derive(Clone, Copy, PartialEq, Eq, Structural, Debug)]
pub enum Color {
    Black,
    Red,
    Green,
    Yellow,
    Blue,
    Magenta,
    Cyan,
    White,
}

impl Color {
    /// The colour's number in the terminal's palette, 0 to 7.
    pub open spec fn spec_code(self) -> u8 {
        match self {
            Color::Black => 0,
            Color::Red => 1,
            Color::Green => 2,
            Color::Yellow => 3,
            Color::Blue => 4,
            Color::Magenta => 5,
            Color::Cyan => 6,
            Color::White => 7,
        }
    }

    /// The colour's number in the terminal's palette.
    #[verifier::when_used_as_spec(spec_code)]
    pub fn code(self) -> (c: u8)
        ensures
            c == self.spec_code(),
    {
        match self {
            Color::Black => 0,
            Color::Red => 1,
            Color::Green => 2,
            Color::Yellow => 3,
            Color::Blue => 4,
            Color::Magenta => 5,
            Color::Cyan => 6,
            Color::White => 7,
        }
    }
}

/// One coloured cell at a board coordinate. While a piece is in the spawn
/// area its blocks may lie above row 1.
#[derive(Clone, Copy, PartialEq, Eq, Structural, Debug)]
pub struct Block {
    pub row: i8,
    pub column: i8,
    pub color: Color,
}

#[derive(Clone, Copy, PartialEq, Eq, Structural, Debug)]
pub enum PieceType {
    I,
    J,
    L,
    O,
    S,
    T,
    Z,
}

/// A tetromino: its type, its orientation (0 to 3) and its four blocks.
#[derive(Clone, Copy, PartialEq, Eq, Debug)]
pub struct Piece {
    pub ty: PieceType,
    pub rotate: u8,
    pub blocks: [Block; 4],
}

/// The block with the given coordinates and colour.
pub open spec fn block_at(row: int, column: int, color: Color) -> Block {
    Block { row: row as i8, column: column as i8, color }
}

/// `b` moved by `(dr, dc)`.
pub open spec fn shifted(b: Block, dr: int, dc: int) -> Block {
    block_at(b.row + dr, b.column + dc, b.color)
}

/// Moving `b` by `(dr, dc)` leaves both coordinates representable.
pub open spec fn shift_fits(b: Block, dr: int, dc: int) -> bool {
    &&& i8::MIN <= b.row + dr <= i8::MAX
    &&& i8::MIN <= b.column + dc <= i8::MAX
}

/// The colour in which every piece of type `ty` is drawn.
pub open spec fn type_color(ty: PieceType) -> Color {
    match ty {
        PieceType::I => Color::Cyan,
        PieceType::J => Color::Blue,
        PieceType::L => Color::White,
        PieceType::O => Color::Yellow,
        PieceType::S => Color::Green,
        PieceType::T => Color::Magenta,
        PieceType::Z => Color::Red,
    }
}

/// The `(row, column)` of each of the four blocks of a fresh piece.
pub open spec fn spawn_cells(ty: PieceType) -> Seq<(int, int)> {
    match ty {
        PieceType::I => seq![(0, 4), (0, 5), (0, 6), (0, 7)],
        PieceType::J => seq![(-1, 4), (0, 4), (0, 5), (0, 6)],
        PieceType::L => seq![(0, 4), (0, 5), (0, 6), (-1, 6)],
        PieceType::O => seq![(-1, 5), (-1, 6), (0, 5), (0, 6)],
        PieceType::S => seq![(0, 5), (0, 6), (-1, 6), (-1, 7)],
        PieceType::T => seq![(0, 4), (0, 5), (0, 6), (-1, 5)],
        PieceType::Z => seq![(-1, 4), (-1, 5), (0, 5), (0, 6)],
    }
}

/// The `(row, column)` offsets that a clockwise turn adds to the four blocks
/// of a piece of type `ty` that stands in orientation `rotate`.
pub open spec fn rotation_offsets(ty: PieceType, rotate: int) -> Seq<(int, int)> {
    match ty {
        PieceType::I => {
            if rotate == 0 {
                seq![(-3, 1), (-2, 0), (-1, -1), (0, -2)]
            } else if rotate == 1 {
                seq![(3, 2), (2, 1), (1, 0), (0, -1)]
            } else if rotate == 2 {
                seq![(0, -2), (-1, -1), (-2, 0), (-3, 1)]
            } else {
                seq![(0, -1), (1, 0), (2, 1), (3, 2)]
            }
        },
        PieceType::J => {
            if rotate == 0 {
                seq![(-1, 2), (-2, 1), (-1, 0), (0, -1)]
            } else if rotate == 1 {
                seq![(2, 0), (1, 1), (0, 0), (-1, -1)]
            } else if rotate == 2 {
                seq![(0, -2), (1, -1), (0, 0), (-1, 1)]
            } else {
                seq![(-1, 0), (0, -1), (1, 0), (2, 1)]
            }
        },
        PieceType::L => {
            if rotate == 0 {
                seq![(-2, 0), (-1, -1), (0, -2), (1, -1)]
            } else if rotate == 1 {
                seq![(1, 2), (0, 1), (-1, 0), (0, -1)]
            } else if rotate == 2 {
                seq![(1, -1), (0, 0), (-1, 1), (-2, 0)]
            } else {
                seq![(0, -1), (1, 0), (2, 1), (1, 2)]
            }
        },
        PieceType::O => {
            if rotate == 0 {
                seq![(0, 0), (0, 0), (0, 0), (0, 0)]
            } else if rotate == 1 {
                seq![(0, 0), (0, 0), (0, 0), (0, 0)]
            } else if rotate == 2 {
                seq![(0, 0), (0, 0), (0, 0), (0, 0)]
            } else {
                seq![(0, 0), (0, 0), (0, 0), (0, 0)]
            }
        },
        PieceType::S => {
            if rotate == 0 {
                seq![(-2, 0), (-1, -1), (0, 0), (1, -1)]
            } else if rotate == 1 {
                seq![(1, 2), (0, 1), (1, 0), (0, -1)]
            } else if rotate == 2 {
                seq![(1, -1), (0, 0), (-1, -1), (-2, 0)]
            } else {
                seq![(0, -1), (1, 0), (0, 1), (1, 2)]
            }
        },
        PieceType::T => {
            if rotate == 0 {
                seq![(-2, 0), (-1, -1), (0, -2), (0, 0)]
            } else if rotate == 1 {
                seq![(1, 2), (0, 1), (-1, 0), (1, 0)]
            } else if rotate == 2 {
                seq![(1, -1), (0, 0), (-1, 1), (-1, -1)]
            } else {
                seq![(0, -1), (1, 0), (2, 1), (0, 1)]
            }
        },
        PieceType::Z => {
            if rotate == 0 {
                seq![(-1, 1), (0, 0), (-1, -1), (0, -2)]
            } else if rotate == 1 {
                seq![(2, 1), (1, 0), (0, 1), (-1, 0)]
            } else if rotate == 2 {
                seq![(0, -2), (-1, -1), (0, 0), (-1, 1)]
            } else {
                seq![(-1, 0), (0, 1), (1, 0), (2, 1)]
            }
        },
    }
}

/// Where the four blocks of a piece of type `ty` lie in orientation `rotate`
/// when the piece has not been moved since it was spawned.
pub open spec fn shape(ty: PieceType, rotate: nat) -> Seq<(int, int)>
    decreases rotate,
{
    if rotate == 0 {
        spawn_cells(ty)
    } else {
        let before = shape(ty, (rotate - 1) as nat);
        let turn = rotation_offsets(ty, rotate - 1);
        Seq::new(4, |i: int| (before[i].0 + turn[i].0, before[i].1 + turn[i].1))
    }
}

/// The fresh piece of type `ty`.
pub open spec fn spawn(ty: PieceType) -> Piece {
    let c = spawn_cells(ty);
    let color = type_color(ty);
    Piece {
        ty,
        rotate: 0,
        blocks: [
            block_at(c[0].0, c[0].1, color),
            block_at(c[1].0, c[1].1, color),
            block_at(c[2].0, c[2].1, color),
            block_at(c[3].0, c[3].1, color),
        ],
    }
}

impl Piece {
    /// The piece moved by `(dr, dc)`.
    pub open spec fn translated(self, dr: int, dc: int) -> Piece {
        Piece {
            ty: self.ty,
            rotate: self.rotate,
            blocks: [
                shifted(self.blocks[0], dr, dc),
                shifted(self.blocks[1], dr, dc),
                shifted(self.blocks[2], dr, dc),
                shifted(self.blocks[3], dr, dc),
            ],
        }
    }

    /// Every block can move by `(dr, dc)` within `i8`.
    pub open spec fn can_translate(self, dr: int, dc: int) -> bool {
        &&& shift_fits(self.blocks[0], dr, dc)
        &&& shift_fits(self.blocks[1], dr, dc)
        &&& shift_fits(self.blocks[2], dr, dc)
        &&& shift_fits(self.blocks[3], dr, dc)
    }

    /// The blocks of the piece, each moved by `sign` times its entry in
    /// `offsets`.
    pub open spec fn turned_by(self, sign: int, rotate: int, offsets: Seq<(int, int)>) -> Piece {
        Piece {
            ty: self.ty,
            rotate: rotate as u8,
            blocks: [
                shifted(self.blocks[0], sign * offsets[0].0, sign * offsets[0].1),
                shifted(self.blocks[1], sign * offsets[1].0, sign * offsets[1].1),
                shifted(self.blocks[2], sign * offsets[2].0, sign * offsets[2].1),
                shifted(self.blocks[3], sign * offsets[3].0, sign * offsets[3].1),
            ],
        }
    }

    /// Every block can move by `sign` times its entry in `offsets` within
    /// `i8`.
    pub open spec fn can_turn_by(self, sign: int, offsets: Seq<(int, int)>) -> bool {
        &&& shift_fits(self.blocks[0], sign * offsets[0].0, sign * offsets[0].1)
        &&& shift_fits(self.blocks[1], sign * offsets[1].0, sign * offsets[1].1)
        &&& shift_fits(self.blocks[2], sign * offsets[2].0, sign * offsets[2].1)
        &&& shift_fits(self.blocks[3], sign * offsets[3].0, sign * offsets[3].1)
    }

    /// The piece after one clockwise turn: the orientation advances by one
    /// and the table entry of the old orientation is added.
    pub open spec fn turned_clockwise(self) -> Piece {
        self.turned_by(1, (self.rotate + 1) % 4, rotation_offsets(self.ty, self.rotate as int))
    }

    pub open spec fn can_turn_clockwise(self) -> bool {
        &&& self.rotate < 4
        &&& self.can_turn_by(1, rotation_offsets(self.ty, self.rotate as int))
    }

    /// The piece after one counter-clockwise turn: the orientation goes back
    /// by one and the table entry of the new orientation is subtracted.
    pub open spec fn turned_counter_clockwise(self) -> Piece {
        self.turned_by(
            -1,
            (self.rotate + 3) % 4,
            rotation_offsets(self.ty, (self.rotate + 3) % 4),
        )
    }

    pub open spec fn can_turn_counter_clockwise(self) -> bool {
        &&& self.rotate < 4
        &&& self.can_turn_by(-1, rotation_offsets(self.ty, (self.rotate + 3) % 4))
    }

    /// The piece is the shape of its type and orientation, moved by
    /// `(row, column)` from where it was spawned, in its type's colour.
    pub open spec fn anchored_at(self, row: int, column: int) -> bool {
        let s = shape(self.ty, self.rotate as nat);
        let color = type_color(self.ty);
        &&& self.rotate < 4
        &&& i8::MIN <= row - 3 && row <= i8::MAX
        &&& i8::MIN <= column + 4 && column + 7 <= i8::MAX
        &&& self.blocks[0] == block_at(s[0].0 + row, s[0].1 + column, color)
        &&& self.blocks[1] == block_at(s[1].0 + row, s[1].1 + column, color)
        &&& self.blocks[2] == block_at(s[2].0 + row, s[2].1 + column, color)
        &&& self.blocks[3] == block_at(s[3].0 + row, s[3].1 + column, color)
    }

    /// How far the piece has fallen since it was spawned.
    pub open spec fn anchor_row(self) -> int {
        self.blocks[0].row - shape(self.ty, self.rotate as nat)[0].0
    }

    /// How far the piece stands to the right of where it was spawned.
    pub open spec fn anchor_column(self) -> int {
        self.blocks[0].column - shape(self.ty, self.rotate as nat)[0].1
    }

    /// The piece is a spawned piece that was turned and moved.
    pub open spec fn well_formed(self) -> bool {
        self.anchored_at(self.anchor_row(), self.anchor_column())
    }
}

/// The fresh piece of type `ty`: orientation 0, at the top of the board, in
/// the type's colour.
pub fn new(ty: PieceType) -> (piece: Piece)
    ensures
        piece == spawn(ty),
{
    let piece = match ty {
        PieceType::I => Piece {
            ty,
            rotate: 0,
            blocks: [
                Block { row: 0, column: 4, color: Color::Cyan },
                Block { row: 0, column: 5, color: Color::Cyan },
                Block { row: 0, column: 6, color: Color::Cyan },
                Block { row: 0, column: 7, color: Color::Cyan },
            ],
        },
        PieceType::J => Piece {
            ty,
            rotate: 0,
            blocks: [
                Block { row: -1, column: 4, color: Color::Blue },
                Block { row: 0, column: 4, color: Color::Blue },
                Block { row: 0, column: 5, color: Color::Blue },
                Block { row: 0, column: 6, color: Color::Blue },
            ],
        },
        PieceType::L => Piece {
            ty,
            rotate: 0,
            blocks: [
                Block { row: 0, column: 4, color: Color::White },
                Block { row: 0, column: 5, color: Color::White },
                Block { row: 0, column: 6, color: Color::White },
                Block { row: -1, column: 6, color: Color::White },
            ],
        },
        PieceType::O => Piece {
            ty,
            rotate: 0,
            blocks: [
                Block { row: -1, column: 5, color: Color::Yellow },
                Block { row: -1, column: 6, color: Color::Yellow },
                Block { row: 0, column: 5, color: Color::Yellow },
                Block { row: 0, column: 6, color: Color::Yellow },
            ],
        },
        PieceType::S => Piece {
            ty,
            rotate: 0,
            blocks: [
                Block { row: 0, column: 5, color: Color::Green },
                Block { row: 0, column: 6, color: Color::Green },
                Block { row: -1, column: 6, color: Color::Green },
                Block { row: -1, column: 7, color: Color::Green },
            ],
        },
        PieceType::T => Piece {
            ty,
            rotate: 0,
            blocks: [
                Block { row: 0, column: 4, color: Color::Magenta },
                Block { row: 0, column: 5, color: Color::Magenta },
                Block { row: 0, column: 6, color: Color::Magenta },
                Block { row: -1, column: 5, color: Color::Magenta },
            ],
        },
        PieceType::Z => Piece {
            ty,
            rotate: 0,
            blocks: [
                Block { row: -1, column: 4, color: Color::Red },
                Block { row: -1, column: 5, color: Color::Red },
                Block { row: 0, column: 5, color: Color::Red },
                Block { row: 0, column: 6, color: Color::Red },
            ],
        },
    };
    piece
}

/// The table entry for a piece of type `ty` in orientation `rotate`.
fn rotation_table(ty: PieceType, rotate: u8) -> (table: [(i8, i8); 4])
    requires
        rotate < 4,
    ensures
        forall|i: int|
            0 <= i < 4 ==> (#[trigger] table[i]).0 == rotation_offsets(ty, rotate as int)[i].0
                && table[i].1 == rotation_offsets(ty, rotate as int)[i].1,
{
    match ty {
        PieceType::I => {
            if rotate == 0 {
                [(-3, 1), (-2, 0), (-1, -1), (0, -2)]
            } else if rotate == 1 {
                [(3, 2), (2, 1), (1, 0), (0, -1)]
            } else if rotate == 2 {
                [(0, -2), (-1, -1), (-2, 0), (-3, 1)]
            } else {
                [(0, -1), (1, 0), (2, 1), (3, 2)]
            }
        },
        PieceType::J => {
            if rotate == 0 {
                [(-1, 2), (-2, 1), (-1, 0), (0, -1)]
            } else if rotate == 1 {
                [(2, 0), (1, 1), (0, 0), (-1, -1)]
            } else if rotate == 2 {
                [(0, -2), (1, -1), (0, 0), (-1, 1)]
            } else {
                [(-1, 0), (0, -1), (1, 0), (2, 1)]
            }
        },
        PieceType::L => {
            if rotate == 0 {
                [(-2, 0), (-1, -1), (0, -2), (1, -1)]
            } else if rotate == 1 {
                [(1, 2), (0, 1), (-1, 0), (0, -1)]
            } else if rotate == 2 {
                [(1, -1), (0, 0), (-1, 1), (-2, 0)]
            } else {
                [(0, -1), (1, 0), (2, 1), (1, 2)]
            }
        },
        PieceType::O => {
            if rotate == 0 {
                [(0, 0), (0, 0), (0, 0), (0, 0)]
            } else if rotate == 1 {
                [(0, 0), (0, 0), (0, 0), (0, 0)]
            } else if rotate == 2 {
                [(0, 0), (0, 0), (0, 0), (0, 0)]
            } else {
                [(0, 0), (0, 0), (0, 0), (0, 0)]
            }
        },
        PieceType::S => {
            if rotate == 0 {
                [(-2, 0), (-1, -1), (0, 0), (1, -1)]
            } else if rotate == 1 {
                [(1, 2), (0, 1), (1, 0), (0, -1)]
            } else if rotate == 2 {
                [(1, -1), (0, 0), (-1, -1), (-2, 0)]
            } else {
                [(0, -1), (1, 0), (0, 1), (1, 2)]
            }
        },
        PieceType::T => {
            if rotate == 0 {
                [(-2, 0), (-1, -1), (0, -2), (0, 0)]
            } else if rotate == 1 {
                [(1, 2), (0, 1), (-1, 0), (1, 0)]
            } else if rotate == 2 {
                [(1, -1), (0, 0), (-1, 1), (-1, -1)]
            } else {
                [(0, -1), (1, 0), (2, 1), (0, 1)]
            }
        },
        PieceType::Z => {
            if rotate == 0 {
                [(-1, 1), (0, 0), (-1, -1), (0, -2)]
            } else if rotate == 1 {
                [(2, 1), (1, 0), (0, 1), (-1, 0)]
            } else if rotate == 2 {
                [(0, -2), (-1, -1), (0, 0), (-1, 1)]
            } else {
                [(-1, 0), (0, 1), (1, 0), (2, 1)]
            }
        },
    }
}

/// Offsets in the direction of a turn: as they stand for a clockwise turn,
/// negated for a counter-clockwise one.
pub open spec fn turn_sign(clockwise: bool) -> int {
    if clockwise {
        1
    } else {
        -1
    }
}

/// Adds the table entry `transform` to the four blocks, or subtracts it for a
/// counter-clockwise turn. The colours stay.
pub fn transform_blocks(clockwise: bool, blocks: &[Block; 4], transform: [(i8, i8); 4]) -> (moved:
    [Block; 4])
    requires
        forall|i: int|
            0 <= i < 4 ==> shift_fits(
                #[trigger] blocks[i],
                turn_sign(clockwise) * transform[i].0,
                turn_sign(clockwise) * transform[i].1,
            ),
    ensures
        forall|i: int|
            0 <= i < 4 ==> #[trigger] moved[i] == shifted(
                blocks[i],
                turn_sign(clockwise) * transform[i].0,
                turn_sign(clockwise) * transform[i].1,
            ),
{
    if clockwise {
        [
            turn_block(blocks[0], transform[0].0, transform[0].1),
            turn_block(blocks[1], transform[1].0, transform[1].1),
            turn_block(blocks[2], transform[2].0, transform[2].1),
            turn_block(blocks[3], transform[3].0, transform[3].1),
        ]
    } else {
        [
            turn_block_back(blocks[0], transform[0].0, transform[0].1),
            turn_block_back(blocks[1], transform[1].0, transform[1].1),
            turn_block_back(blocks[2], transform[2].0, transform[2].1),
            turn_block_back(blocks[3], transform[3].0, transform[3].1),
        ]
    }
}

fn turn_block(block: Block, dr: i8, dc: i8) -> (moved: Block)
    requires
        shift_fits(block, dr as int, dc as int),
    ensures
        moved == shifted(block, dr as int, dc as int),
{
    Block { row: block.row + dr, column: block.column + dc, color: block.color }
}

fn turn_block_back(block: Block, dr: i8, dc: i8) -> (moved: Block)
    requires
        shift_fits(block, -dr, -dc),
    ensures
        moved == shifted(block, -dr, -dc),
{
    Block { row: block.row - dr, column: block.column - dc, color: block.color }
}

/// Turns the piece clockwise: the orientation advances by one, modulo 4, and
/// each block moves by its entry in the table of the piece's type and old
/// orientation.
pub fn rotate_clockwise(piece: &Piece) -> (turned: Piece)
    requires
        piece.can_turn_clockwise(),
    ensures
        turned == piece.turned_clockwise(),
{
    let table = rotation_table(piece.ty, piece.rotate);
    let turned = Piece {
        ty: piece.ty,
        rotate: (piece.rotate + 1) % 4,
        blocks: transform_blocks(true, &piece.blocks, table),
    };
    assert(turned.blocks =~= piece.turned_clockwise().blocks);
    turned
}

/// Turns the piece counter-clockwise: the orientation goes back by one,
/// modulo 4, and each block moves against its entry in the table of the
/// piece's type and new orientation.
pub fn rotate_counter_clockwise(piece: &Piece) -> (turned: Piece)
    requires
        piece.can_turn_counter_clockwise(),
    ensures
        turned == piece.turned_counter_clockwise(),
{
    let rotate: u8 = (piece.rotate + 3) % 4;
    let table = rotation_table(piece.ty, rotate);
    let turned = Piece {
        ty: piece.ty,
        rotate,
        blocks: transform_blocks(false, &piece.blocks, table),
    };
    assert(turned.blocks =~= piece.turned_counter_clockwise().blocks);
    turned
}

/// Moves every block of the piece by `(row_offset, column_offset)`. Type,
/// orientation and colours stay.
pub fn translate(piece: &Piece, row_offset: i8, column_offset: i8) -> (moved: Piece)
    requires
        piece.can_translate(row_offset as int, column_offset as int),
    ensures
        moved == piece.translated(row_offset as int, column_offset as int),
{
    let moved = Piece {
        ty: piece.ty,
        rotate: piece.rotate,
        blocks: [
            Block {
                row: piece.blocks[0].row + row_offset,
                column: piece.blocks[0].column + column_offset,
                color: piece.blocks[0].color,
            },
            Block {
                row: piece.blocks[1].row + row_offset,
                column: piece.blocks[1].column + column_offset,
                color: piece.blocks[1].color,
            },
            Block {
                row: piece.blocks[2].row + row_offset,
                column: piece.blocks[2].column + column_offset,
                color: piece.blocks[2].color,
            },
            Block {
                row: piece.blocks[3].row + row_offset,
                column: piece.blocks[3].column + column_offset,
                color: piece.blocks[3].color,
            },
        ],
    };
    moved
}

/// A clockwise turn followed by a counter-clockwise turn gives the piece
/// back, for every type and every orientation.
pub proof fn lemma_turn_there_and_back(piece: Piece)
    requires
        piece.can_turn_clockwise(),
    ensures
        piece.turned_clockwise().can_turn_counter_clockwise(),
        piece.turned_clockwise().turned_counter_clockwise() == piece,
{
    assert(piece.turned_clockwise().turned_counter_clockwise().blocks =~= piece.blocks);
}

/// A counter-clockwise turn followed by a clockwise turn gives the piece
/// back, for every type and every orientation.
pub proof fn lemma_turn_back_and_there(piece: Piece)
    requires
        piece.can_turn_counter_clockwise(),
    ensures
        piece.turned_counter_clockwise().can_turn_clockwise(),
        piece.turned_counter_clockwise().turned_clockwise() == piece,
{
    assert(piece.turned_counter_clockwise().turned_clockwise().blocks =~= piece.blocks);
}

/// Moving a piece by `(a, b)` and then by `(-a, -b)` gives the piece back.
pub proof fn lemma_translate_there_and_back(piece: Piece, a: int, b: int)
    requires
        piece.can_translate(a, b),
    ensures
        piece.translated(a, b).can_translate(-a, -b),
        piece.translated(a, b).translated(-a, -b) == piece,
{
    assert(piece.translated(a, b).translated(-a, -b).blocks =~= piece.blocks);
}

/// In every orientation the shape of a type lies in the four rows and four
/// columns in which the type is spawned.
pub proof fn lemma_shape_bounds(ty: PieceType, rotate: nat)
    requires
        rotate < 4,
    ensures
        shape(ty, rotate).len() == 4,
        forall|i: int|
            0 <= i < 4 ==> -3 <= (#[trigger] shape(ty, rotate)[i]).0 <= 0 && 4 <= shape(
                ty,
                rotate,
            )[i].1 <= 7,
{
    reveal_with_fuel(shape, 4);
}

/// Block `i` of the shape in orientation `next` lies where the table entry
/// of orientation `rotate` takes block `i` of the shape in that orientation.
pub open spec fn shape_turns_to(ty: PieceType, rotate: nat, next: nat, i: int) -> bool {
    &&& shape(ty, next)[i].0 == shape(ty, rotate)[i].0 + rotation_offsets(ty, rotate as int)[i].0
    &&& shape(ty, next)[i].1 == shape(ty, rotate)[i].1 + rotation_offsets(ty, rotate as int)[i].1
}

/// A clockwise turn takes the shape of one orientation to the shape of the
/// next, and the fourth turn leads back to the shape in which the type is
/// spawned.
pub proof fn lemma_shape_turns(ty: PieceType, rotate: nat, next: nat)
    requires
        rotate < 4,
        next == (rotate + 1) % 4,
    ensures
        shape_turns_to(ty, rotate, next, 0),
        shape_turns_to(ty, rotate, next, 1),
        shape_turns_to(ty, rotate, next, 2),
        shape_turns_to(ty, rotate, next, 3),
{
    reveal_with_fuel(shape, 4);
}

/// A fresh piece is well-formed and stands where it was spawned.
pub proof fn lemma_spawn_well_formed(ty: PieceType)
    ensures
        spawn(ty).anchored_at(0, 0),
        spawn(ty).well_formed(),
        spawn(ty).anchor_row() == 0,
        spawn(ty).anchor_column() == 0,
{
}

/// The blocks of a well-formed piece lie in the four rows that end with its
/// anchor row, and in four columns.
pub proof fn lemma_well_formed_bounds(piece: Piece)
    requires
        piece.well_formed(),
    ensures
        forall|i: int|
            0 <= i < 4 ==> piece.anchor_row() - 3 <= (#[trigger] piece.blocks[i]).row
                <= piece.anchor_row() && piece.anchor_column() + 4 <= piece.blocks[i].column
                <= piece.anchor_column() + 7,
{
    lemma_shape_bounds(piece.ty, piece.rotate as nat);
}

/// A well-formed piece that stays within the coordinates of `i8` is still
/// well-formed after a move, and its anchor has moved with it.
pub proof fn lemma_translated_well_formed(piece: Piece, dr: int, dc: int)
    requires
        piece.well_formed(),
        i8::MIN <= piece.anchor_row() + dr - 3,
        piece.anchor_row() + dr <= i8::MAX,
        i8::MIN <= piece.anchor_column() + dc + 4,
        piece.anchor_column() + dc + 7 <= i8::MAX,
    ensures
        piece.can_translate(dr, dc),
        piece.translated(dr, dc).well_formed(),
        piece.translated(dr, dc).anchor_row() == piece.anchor_row() + dr,
        piece.translated(dr, dc).anchor_column() == piece.anchor_column() + dc,
{
    lemma_shape_bounds(piece.ty, piece.rotate as nat);
}

/// A well-formed piece can turn clockwise, is still well-formed after the
/// turn, and its anchor has not moved.
pub proof fn lemma_turned_clockwise_well_formed(piece: Piece)
    requires
        piece.well_formed(),
    ensures
        piece.can_turn_clockwise(),
        piece.turned_clockwise().well_formed(),
        piece.turned_clockwise().anchor_row() == piece.anchor_row(),
        piece.turned_clockwise().anchor_column() == piece.anchor_column(),
{
    let next = ((piece.rotate + 1) % 4) as nat;
    let from = shape(piece.ty, piece.rotate as nat);
    lemma_shape_bounds(piece.ty, piece.rotate as nat);
    lemma_shape_bounds(piece.ty, next);
    lemma_shape_turns(piece.ty, piece.rotate as nat, next);
    assert(from[0].0 <= 0 && from[1].0 <= 0 && from[2].0 <= 0 && from[3].0 <= 0);
}

/// A well-formed piece can turn counter-clockwise, is still well-formed after
/// the turn, and its anchor has not moved.
pub proof fn lemma_turned_counter_clockwise_well_formed(piece: Piece)
    requires
        piece.well_formed(),
    ensures
        piece.can_turn_counter_clockwise(),
        piece.turned_counter_clockwise().well_formed(),
        piece.turned_counter_clockwise().anchor_row() == piece.anchor_row(),
        piece.turned_counter_clockwise().anchor_column() == piece.anchor_column(),
{
    let back = ((piece.rotate + 3) % 4) as nat;
    lemma_shape_bounds(piece.ty, piece.rotate as nat);
    lemma_shape_bounds(piece.ty, back);
    lemma_shape_turns(piece.ty, back, piece.rotate as nat);
}

} // verus!
