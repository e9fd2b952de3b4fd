use tetris::input_reader::ReadResult;
use tetris::main_loop::MainLoop;
use tetris::piece_getter::PieceGetter;
use tetris::pieces::{new, translate, Piece, PieceType};
use tetris::scoring::Score;
use tetris::tetris::{Request, State, TetrisGame};

struct Squares;

impl PieceGetter for Squares {
    fn next_piece(&mut self) -> Piece {
        new(PieceType::O)
    }
}

#[test]
fn the_loop_starts_with_a_second_until_the_first_step() {
    let main_loop = MainLoop::new();
    assert_eq!(main_loop, MainLoop { step_time_ms: 1000, since_last_step_ns: 0 });
    assert_eq!(main_loop.poll_time_ms(), 1000);
}

#[test]
fn waiting_for_a_key_counts_against_the_time_until_the_step() {
    let mut main_loop = MainLoop::new();
    let mut game = TetrisGame::new(Squares);
    let (go_on, requests) = main_loop.on_input(&mut game, ReadResult::Left, 250_000_000);
    assert!(go_on);
    assert_eq!(main_loop, MainLoop { step_time_ms: 1000, since_last_step_ns: 250_000_000 });
    assert_eq!(main_loop.poll_time_ms(), 750);
    assert_eq!(game.piece(), translate(&new(PieceType::O), 0, -1));
    assert_eq!(
        requests,
        vec![
            Request::ErasePiece(new(PieceType::O)),
            Request::PrintPiece(translate(&new(PieceType::O), 0, -1)),
            Request::Flush,
        ]
    );
    main_loop.on_input(&mut game, ReadResult::Right, 300_999_999);
    assert_eq!(main_loop.since_last_step_ns, 550_999_999);
    assert_eq!(main_loop.poll_time_ms(), 450);
}

#[test]
fn no_time_is_left_once_the_step_is_due() {
    let due = MainLoop { step_time_ms: 1000, since_last_step_ns: 1_000_000_000 };
    assert_eq!(due.poll_time_ms(), 0);
    let almost = MainLoop { step_time_ms: 1000, since_last_step_ns: 999_999_999 };
    assert_eq!(almost.poll_time_ms(), 1);
    let overdue = MainLoop { step_time_ms: 1000, since_last_step_ns: 2_000_000_000 };
    assert_eq!(overdue.poll_time_ms(), 0);
    let late = MainLoop { step_time_ms: 200, since_last_step_ns: u64::MAX };
    assert_eq!(late.poll_time_ms(), 0);
}

#[test]
fn the_wait_is_never_negative_nor_longer_than_the_step() {
    for step_time_ms in [i32::MIN, -1, 0, 1, 200, 500, 1000, i32::MAX] {
        for since_last_step_ns in [0, 1, 999_999, 1_000_000, 499_000_000, 1_000_000_000, u64::MAX]
        {
            let millis = MainLoop { step_time_ms, since_last_step_ns }.poll_time_ms();
            assert!(millis >= 0);
            assert!(millis <= step_time_ms.max(0));
        }
    }
    assert_eq!(MainLoop { step_time_ms: i32::MAX, since_last_step_ns: 0 }.poll_time_ms(), i32::MAX);
    assert_eq!(MainLoop { step_time_ms: -5, since_last_step_ns: 0 }.poll_time_ms(), 0);
}

#[test]
fn keys_that_come_fast_use_up_the_time_until_the_step() {
    let mut main_loop = MainLoop::new();
    let mut game = TetrisGame::new(Squares);
    let mut waits = Vec::new();
    for _ in 0..6 {
        main_loop.on_input(&mut game, ReadResult::Up, 300_000_000);
        waits.push(main_loop.poll_time_ms());
    }
    assert_eq!(waits, vec![700, 400, 100, 0, 0, 0]);
    main_loop.on_timeout(&mut game);
    assert_eq!(main_loop.poll_time_ms(), 1000);
}

#[test]
fn a_step_starts_the_time_anew() {
    let mut main_loop = MainLoop::new();
    let mut game = TetrisGame::new(Squares);
    main_loop.on_input(&mut game, ReadResult::Left, 400_000_000);
    let (go_on, requests) = main_loop.on_timeout(&mut game);
    assert!(go_on);
    assert_eq!(main_loop, MainLoop { step_time_ms: 1000, since_last_step_ns: 0 });
    assert_eq!(main_loop.poll_time_ms(), 1000);
    assert_eq!(game.piece(), translate(&new(PieceType::O), 1, -1));
    assert_eq!(requests.len(), 3);
}

#[test]
fn any_other_key_stores_the_score_and_stops_the_loop() {
    let mut main_loop = MainLoop::new();
    let mut game = TetrisGame::new(Squares);
    main_loop.on_input(&mut game, ReadResult::Left, 400);
    let (go_on, requests) = main_loop.on_input(&mut game, ReadResult::Other, u64::MAX);
    assert!(!go_on);
    assert_eq!(requests, vec![Request::StoreScore(Score { level: 1, bonus: 1, score: 0 })]);
    assert_eq!(main_loop, MainLoop { step_time_ms: 1000, since_last_step_ns: 400 });
    assert_eq!(game.piece(), translate(&new(PieceType::O), 0, -1));
}

#[test]
fn the_loop_stops_after_the_last_step_of_the_game() {
    let mut main_loop = MainLoop::new();
    let mut game = TetrisGame::new(Squares);
    for _ in 0..10 {
        main_loop.on_input(&mut game, ReadResult::Down, 1_000_000);
        assert_eq!(main_loop.on_timeout(&mut game).0, true);
        assert_eq!(main_loop.step_time_ms, 1000);
    }
    let (go_on, _) = main_loop.on_timeout(&mut game);
    assert!(go_on);
    assert_eq!(game.state(), State::GameOver);
    assert_eq!(main_loop, MainLoop { step_time_ms: 500, since_last_step_ns: 0 });
    let (go_on, requests) = main_loop.on_timeout(&mut game);
    assert!(!go_on);
    assert_eq!(main_loop, MainLoop { step_time_ms: 500, since_last_step_ns: 0 });
    assert_eq!(
        requests,
        vec![Request::StoreScore(Score { level: 1, bonus: 1, score: 0 }), Request::Flush]
    );
}
