use tetris::graphics::{
    encode, perform, Converter, Display, DoubleDisplay, StandardDisplay, TermOp,
};
use tetris::pieces::{new, translate, Block, Color, PieceType};
use tetris::scoring::Score;
use tetris::tetris::Request;

fn at(row: i32, col: i32) -> TermOp {
    TermOp::MoveCursor { row, col }
}

fn bg(offset: u8) -> TermOp {
    TermOp::SetBackgroundColor { offset }
}

#[test]
fn standard_display_takes_two_columns_for_a_cell() {
    assert_eq!(StandardDisplay.to_terminal(1, 1), (3, 6));
    assert_eq!(StandardDisplay.to_terminal(1, 2), (3, 8));
    assert_eq!(StandardDisplay.to_terminal(20, 10), (22, 24));
    assert_eq!(StandardDisplay.to_terminal(0, 0), (2, 4));
    assert_eq!(StandardDisplay.to_terminal(i16::MAX, i16::MAX), (32769, 65538));
    assert_eq!(StandardDisplay.to_terminal(i16::MIN, i16::MIN), (-32766, -65532));
}

#[test]
fn double_display_takes_two_rows_and_four_columns_for_a_cell() {
    assert_eq!(DoubleDisplay.to_terminal(1, 1), (4, 33));
    assert_eq!(DoubleDisplay.to_terminal(2, 2), (6, 37));
    assert_eq!(DoubleDisplay.to_terminal(20, 10), (42, 69));
    assert_eq!(DoubleDisplay.to_terminal(i16::MAX, i16::MAX), (65536, 131097));
}

#[test]
fn standard_display_draws_a_block_as_two_blanks() {
    let block = Block { row: 1, column: 1, color: Color::Red };
    assert_eq!(StandardDisplay.print_block(block), vec![at(3, 6), bg(1), TermOp::Print("  ")]);
    let block = Block { row: 20, column: 10, color: Color::White };
    assert_eq!(StandardDisplay.print_block(block), vec![at(22, 24), bg(7), TermOp::Print("  ")]);
}

#[test]
fn double_display_draws_a_block_as_two_rows_of_four_blanks() {
    let block = Block { row: 1, column: 1, color: Color::Red };
    assert_eq!(
        DoubleDisplay.print_block(block),
        vec![at(4, 33), bg(1), TermOp::Print("    "), at(3, 33), TermOp::Print("    ")]
    );
    let block = Block { row: 20, column: 10, color: Color::Cyan };
    assert_eq!(
        DoubleDisplay.print_block(block),
        vec![at(42, 69), bg(6), TermOp::Print("    "), at(41, 69), TermOp::Print("    ")]
    );
}

#[test]
fn blocks_above_or_left_of_the_board_are_not_drawn() {
    for (row, column) in [(0, 5), (-1, 5), (5, 0), (5, -3), (0, 0), (-128, -128)] {
        let block = Block { row, column, color: Color::Green };
        assert_eq!(StandardDisplay.print_block(block), vec![]);
        assert_eq!(DoubleDisplay.print_block(block), vec![]);
        assert_eq!(StandardDisplay.erase_block(row, column), vec![]);
    }
}

#[test]
fn erasing_draws_in_the_background_colour() {
    assert_eq!(StandardDisplay.erase_block(2, 3), vec![at(4, 10), bg(0), TermOp::Print("  ")]);
    assert_eq!(
        DoubleDisplay.erase_block(2, 3),
        vec![at(6, 41), bg(0), TermOp::Print("    "), at(5, 41), TermOp::Print("    ")]
    );
}

#[test]
fn a_piece_is_drawn_block_by_block() {
    let piece = translate(&new(PieceType::J), 1, 0);
    // the first block lies in row 0 and is not drawn
    assert_eq!(
        StandardDisplay.print_piece(&piece),
        vec![
            at(3, 12),
            bg(4),
            TermOp::Print("  "),
            at(3, 14),
            bg(4),
            TermOp::Print("  "),
            at(3, 16),
            bg(4),
            TermOp::Print("  "),
        ]
    );
    assert_eq!(
        StandardDisplay.erase_piece(&piece),
        vec![
            at(3, 12),
            bg(0),
            TermOp::Print("  "),
            at(3, 14),
            bg(0),
            TermOp::Print("  "),
            at(3, 16),
            bg(0),
            TermOp::Print("  "),
        ]
    );
    assert_eq!(StandardDisplay.print_piece(&new(PieceType::I)), vec![]);
}

#[test]
fn standard_display_shows_the_next_piece_beside_the_board() {
    assert_eq!(
        StandardDisplay.print_next_piece(&new(PieceType::I)),
        vec![
            at(12, 40),
            bg(6),
            TermOp::Print("  "),
            at(12, 42),
            bg(6),
            TermOp::Print("  "),
            at(12, 44),
            bg(6),
            TermOp::Print("  "),
            at(12, 46),
            bg(6),
            TermOp::Print("  "),
        ]
    );
    assert_eq!(
        StandardDisplay.print_next_piece(&new(PieceType::O)),
        vec![
            at(11, 40),
            bg(3),
            TermOp::Print("  "),
            at(11, 42),
            bg(3),
            TermOp::Print("  "),
            at(12, 40),
            bg(3),
            TermOp::Print("  "),
            at(12, 42),
            bg(3),
            TermOp::Print("  "),
        ]
    );
}

#[test]
fn double_display_shows_the_next_piece_beside_the_board() {
    let ops = DoubleDisplay.print_next_piece(&new(PieceType::I));
    assert_eq!(ops.len(), 20);
    assert_eq!(
        ops[..5].to_vec(),
        vec![at(22, 89), bg(6), TermOp::Print("    "), at(21, 89), TermOp::Print("    ")]
    );
    assert_eq!(ops[15], at(22, 101));
    let ops = DoubleDisplay.print_next_piece(&new(PieceType::S));
    // the S piece is shown one column further left: its first block is spawned in column 5
    assert_eq!(ops[0], at(22, 89));
    assert_eq!(ops[1], bg(2));
}

#[test]
fn erasing_the_next_piece_draws_its_cells_in_the_background_colour() {
    let ops = StandardDisplay.erase_next_piece(&new(PieceType::I));
    assert_eq!(ops.len(), 12);
    assert_eq!(ops[..3].to_vec(), vec![at(12, 40), bg(0), TermOp::Print("  ")]);
    assert_eq!(ops[9..].to_vec(), vec![at(12, 46), bg(0), TermOp::Print("  ")]);
}

#[test]
fn the_score_is_written_with_blanks_behind_each_number() {
    let score = Score { level: 3, bonus: 12, score: 4500 };
    assert_eq!(
        StandardDisplay.print_score(score),
        vec![
            TermOp::ResetGraphics,
            at(4, 40),
            TermOp::PrintNumber(3),
            TermOp::Print("   "),
            at(6, 40),
            TermOp::PrintNumber(12),
            TermOp::Print("    "),
            at(8, 40),
            TermOp::PrintNumber(4500),
            TermOp::Print("    "),
        ]
    );
    let ops = DoubleDisplay.print_score(score);
    assert_eq!(ops.len(), 10);
    assert_eq!(ops[1], at(6, 89));
    assert_eq!(ops[4], at(10, 89));
    assert_eq!(ops[7], at(14, 89));
}

#[test]
fn standard_display_sets_up_the_screen() {
    let ops = StandardDisplay.init();
    assert_eq!(ops.len(), 128);
    assert_eq!(
        ops[..7].to_vec(),
        vec![
            TermOp::ClearTerminal,
            TermOp::HideCursor,
            TermOp::ResetGraphics,
            at(3, 4),
            TermOp::Print("<!"),
            at(3, 26),
            TermOp::Print("!>"),
        ]
    );
    // the sides reach one row below the board
    assert_eq!(
        ops[83..87].to_vec(),
        vec![at(23, 4), TermOp::Print("<!"), at(23, 26), TermOp::Print("!>")]
    );
    assert_eq!(ops[87], at(23, 6));
    assert!(ops[88..108].iter().all(|op| *op == TermOp::Print("=")));
    assert_eq!(ops[108], at(24, 6));
    assert!(ops[109..119].iter().all(|op| *op == TermOp::Print("\\/")));
    assert_eq!(
        ops[119..].to_vec(),
        vec![
            at(4, 32),
            TermOp::Print("Level:"),
            at(6, 32),
            TermOp::Print("Bonus:"),
            at(8, 32),
            TermOp::Print("Score:"),
            at(12, 32),
            TermOp::Print("Next:"),
            TermOp::Flush,
        ]
    );
}

#[test]
fn double_display_sets_up_the_screen() {
    let ops = DoubleDisplay.init();
    assert_eq!(ops.len(), 238);
    assert_eq!(ops[3], at(3, 31));
    assert_eq!(ops[5], at(3, 73));
    assert_eq!(ops[167], at(43, 33));
    assert_eq!(ops[208], at(44, 33));
    assert_eq!(ops[229], at(6, 81));
    assert_eq!(ops[230], TermOp::Print("Level:"));
    assert_eq!(ops[237], TermOp::Flush);
}

#[test]
fn leaving_the_screen_puts_the_cursor_below_the_board() {
    assert_eq!(
        StandardDisplay.close(),
        vec![TermOp::ResetGraphics, TermOp::ShowCursor, at(25, 6)]
    );
    assert_eq!(DoubleDisplay.close(), vec![TermOp::ResetGraphics, TermOp::ShowCursor, at(46, 33)]);
}

#[test]
fn flush_is_one_command() {
    assert_eq!(StandardDisplay.flush(), vec![TermOp::Flush]);
    assert_eq!(DoubleDisplay.flush(), vec![TermOp::Flush]);
}

#[test]
fn a_request_is_carried_out_by_the_display() {
    let display = StandardDisplay;
    let block = Block { row: 4, column: 4, color: Color::Blue };
    let piece = translate(&new(PieceType::T), 3, 0);
    let score = Score { level: 1, bonus: 2, score: 10 };
    assert_eq!(perform(&display, &Request::PrintBlock(block)), display.print_block(block));
    assert_eq!(perform(&display, &Request::EraseBlock { row: 4, col: 4 }), display.erase_block(4, 4));
    assert_eq!(perform(&display, &Request::PrintPiece(piece)), display.print_piece(&piece));
    assert_eq!(perform(&display, &Request::ErasePiece(piece)), display.erase_piece(&piece));
    assert_eq!(
        perform(&display, &Request::PrintNextPiece(piece)),
        display.print_next_piece(&piece)
    );
    assert_eq!(
        perform(&display, &Request::EraseNextPiece(piece)),
        display.erase_next_piece(&piece)
    );
    assert_eq!(perform(&display, &Request::PrintScore(score)), display.print_score(score));
    assert_eq!(perform(&display, &Request::Flush), vec![TermOp::Flush]);
    assert_eq!(perform(&display, &Request::StoreScore(score)), vec![]);
    assert_eq!(perform(&display, &Request::PrintPiece(piece)).len(), 12);
    assert_eq!(perform(&DoubleDisplay, &Request::PrintPiece(piece)).len(), 20);
}

#[test]
fn commands_are_escape_sequences() {
    assert_eq!(encode(&TermOp::ClearTerminal), b"\x1b[2J".to_vec());
    assert_eq!(encode(&TermOp::ResetGraphics), b"\x1b[0m".to_vec());
    assert_eq!(encode(&TermOp::HideCursor), b"\x1b[?25l".to_vec());
    assert_eq!(encode(&TermOp::ShowCursor), b"\x1b[?25h".to_vec());
    assert_eq!(encode(&at(3, 6)), b"\x1b[3;6H".to_vec());
    assert_eq!(encode(&at(42, 69)), b"\x1b[42;69H".to_vec());
    assert_eq!(encode(&at(-12, 1040)), b"\x1b[-12;1040H".to_vec());
    assert_eq!(encode(&at(i32::MIN, i32::MAX)), b"\x1b[-2147483648;2147483647H".to_vec());
    assert_eq!(encode(&bg(0)), b"\x1b[40m".to_vec());
    assert_eq!(encode(&bg(7)), b"\x1b[47m".to_vec());
    assert_eq!(encode(&bg(255)), b"\x1b[295m".to_vec());
}

#[test]
fn text_and_numbers_are_written_as_they_are() {
    assert_eq!(encode(&TermOp::Print("<!")), b"<!".to_vec());
    assert_eq!(encode(&TermOp::Print("\\/")), b"\\/".to_vec());
    assert_eq!(encode(&TermOp::Print("Level:")), b"Level:".to_vec());
    assert_eq!(encode(&TermOp::Print("")), b"".to_vec());
    assert_eq!(encode(&TermOp::PrintNumber(0)), b"0".to_vec());
    assert_eq!(encode(&TermOp::PrintNumber(9)), b"9".to_vec());
    assert_eq!(encode(&TermOp::PrintNumber(10)), b"10".to_vec());
    assert_eq!(encode(&TermOp::PrintNumber(5242880)), b"5242880".to_vec());
    assert_eq!(encode(&TermOp::PrintNumber(-7)), b"-7".to_vec());
    assert_eq!(encode(&TermOp::PrintNumber(i64::MAX)), b"9223372036854775807".to_vec());
    assert_eq!(encode(&TermOp::PrintNumber(i64::MIN)), b"-9223372036854775808".to_vec());
}

#[test]
fn flush_is_no_bytes() {
    assert_eq!(encode(&TermOp::Flush), Vec::<u8>::new());
}

#[test]
fn a_block_on_the_terminal() {
    let block = Block { row: 1, column: 1, color: Color::Red };
    let bytes: Vec<u8> =
        StandardDisplay.print_block(block).iter().flat_map(|op| encode(op)).collect();
    assert_eq!(bytes, b"\x1b[3;6H\x1b[41m  ".to_vec());
}
