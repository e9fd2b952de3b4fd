use tetris::piece_getter::{new, piece_types, PieceGetter};
use tetris::pieces::{self, PieceType};
use tetris::tetris::{State, TetrisGame};

#[test]
fn a_drawn_piece_is_the_fresh_piece_of_its_type() {
    let mut getter = new();
    for _ in 0..200 {
        let piece = getter.next_piece();
        assert_eq!(piece, pieces::new(piece.ty));
        assert_eq!(piece.rotate, 0);
    }
}

#[test]
fn every_type_is_drawn() {
    let mut getter = new();
    let mut seen = Vec::new();
    for _ in 0..2000 {
        let ty = getter.next_piece().ty;
        if !seen.contains(&ty) {
            seen.push(ty);
        }
    }
    assert_eq!(seen.len(), 7);
}

#[test]
fn a_game_can_draw_its_pieces_at_random() {
    let mut game = TetrisGame::new(new());
    let first = game.piece();
    assert_eq!(first, pieces::new(first.ty));
    let (wait, _) = game.handle_step();
    assert_eq!(wait, Some(1000));
    assert_eq!(game.state(), State::Fall);
    assert_eq!(game.piece(), pieces::translate(&first, 1, 0));
}

#[test]
fn a_type_is_drawn_from_all_seven() {
    assert_eq!(
        piece_types(),
        [
            PieceType::I,
            PieceType::J,
            PieceType::L,
            PieceType::O,
            PieceType::S,
            PieceType::T,
            PieceType::Z,
        ]
    );
}
