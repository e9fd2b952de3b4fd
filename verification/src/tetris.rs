//! The game: one falling piece, the piece that comes next, the settled
//! blocks and the score, moved on by timed steps and by the player's keys.
//!
//! The game draws nothing itself. Every step and every key returns the
//! requests that the display and the score keeper are to carry out, in
//! order.

use crate::collision::{
    all_in_bounds, can_fall, can_move_rows, collides, collides_with_set_blocks, fully_in_bounds,
    in_bounds_cols, within_columns,
};
use crate::input_reader::ReadResult;
use crate::piece_getter::PieceGetter;
use crate::pieces::{
    lemma_spawn_well_formed, lemma_translated_well_formed, lemma_turned_clockwise_well_formed,
    lemma_turned_counter_clockwise_well_formed, lemma_well_formed_bounds, rotate_clockwise,
    rotate_counter_clockwise, spawn, translate, Block, Piece,
};
use crate::rows::{
    clear_set_rows, cleared, completed_row_count, is_row_set, row_complete, set_row_count,
};
use crate::scoring::{self, level_table, Score, Scoring, StdScoring, Tally, LEVELS};
use crate::set_blocks::{empty_board, well_formed, with_block, Board, SetBlocks};
use vstd::prelude::*;

verus! {

/// Where the game stands.
#[derive(Clone, Copy, PartialEq, Eq, Structural, Debug)]
pub enum State {
    /// A piece is falling.
    Fall,
    /// A piece was locked and completed rows, which the next step clears.
    Clear,
    /// The game has ended; the next step stores the score.
    GameOver,
}

/// What the game asks of the display and of the score keeper.
#[derive(Clone, Copy, PartialEq, Eq, Debug)]
pub enum Request {
    /// Draw the block.
    PrintBlock(Block),
    /// Draw the cell in the background colour.
    EraseBlock { row: i8, col: i8 },
    /// Draw the falling piece.
    PrintPiece(Piece),
    /// Draw the cells of the falling piece in the background colour.
    ErasePiece(Piece),
    /// Draw the piece in the preview.
    PrintNextPiece(Piece),
    /// Remove the piece from the preview.
    EraseNextPiece(Piece),
    /// Draw level, bonus and score.
    PrintScore(Score),
    /// Send what was drawn to the terminal.
    Flush,
    /// Store the final score.
    StoreScore(Score),
}

/// Milliseconds between the step that ends the game and the step that stores
/// the score.
pub const GAME_OVER_DELAY: i32 = 500;

/// Milliseconds for which the game rests after a piece was locked and after
/// rows were cleared.
pub const SETTLE_DELAY: i32 = 1000;

/// The board with the four blocks of `piece` written into it.
pub open spec fn locked(board: Board, piece: Piece) -> Board {
    with_block(
        with_block(with_block(with_block(board, piece.blocks[0]), piece.blocks[1]), piece.blocks[2]),
        piece.blocks[3],
    )
}

/// Where `piece` comes to rest when it falls as far as it can.
pub open spec fn resting_place<B: SetBlocks>(board: B, piece: Piece) -> Piece
    decreases 21 - piece.blocks[0].row,
{
    if piece.can_translate(1, 0) && can_fall(board, piece) {
        resting_place(board, piece.translated(1, 0))
    } else {
        piece
    }
}

/// The requests that erase the cells of `row` in columns 1 to `cols`.
pub open spec fn erase_row_requests(row: i8, cols: int) -> Seq<Request>
    decreases cols,
{
    if cols <= 0 {
        Seq::empty()
    } else {
        erase_row_requests(row, cols - 1).push(Request::EraseBlock { row, col: cols as i8 })
    }
}

/// The requests that erase every complete row among rows 1 to `rows`, from
/// the top.
pub open spec fn erase_set_rows_requests<B: SetBlocks>(board: B, rows: int) -> Seq<Request>
    decreases rows,
{
    if rows <= 0 {
        Seq::empty()
    } else if row_complete(board, rows) {
        erase_set_rows_requests(board, rows - 1) + erase_row_requests(rows as i8, 10)
    } else {
        erase_set_rows_requests(board, rows - 1)
    }
}

/// The requests that erase the settled blocks of `row` in columns 1 to
/// `cols`.
pub open spec fn erase_blocks_in_row<B: SetBlocks>(board: B, row: i8, cols: int) -> Seq<Request>
    decreases cols,
{
    if cols <= 0 {
        Seq::empty()
    } else if board.cell(row as int, cols) is Some {
        erase_blocks_in_row(board, row, cols - 1).push(
            Request::EraseBlock { row, col: cols as i8 },
        )
    } else {
        erase_blocks_in_row(board, row, cols - 1)
    }
}

/// The requests that erase the settled blocks of rows 1 to `rows`, row by
/// row from the top and from left to right.
pub open spec fn erase_all_requests<B: SetBlocks>(board: B, rows: int) -> Seq<Request>
    decreases rows,
{
    if rows <= 0 {
        Seq::empty()
    } else {
        erase_all_requests(board, rows - 1) + erase_blocks_in_row(board, rows as i8, 10)
    }
}

/// The requests that draw the settled blocks of `row` in columns 1 to
/// `cols`.
pub open spec fn print_blocks_in_row<B: SetBlocks>(board: B, row: i8, cols: int) -> Seq<Request>
    decreases cols,
{
    if cols <= 0 {
        Seq::empty()
    } else {
        match board.cell(row as int, cols) {
            Some(block) => print_blocks_in_row(board, row, cols - 1).push(
                Request::PrintBlock(block),
            ),
            None => print_blocks_in_row(board, row, cols - 1),
        }
    }
}

/// The requests that draw the settled blocks of rows 1 to `rows`, row by row
/// from the top and from left to right.
pub open spec fn print_all_requests<B: SetBlocks>(board: B, rows: int) -> Seq<Request>
    decreases rows,
{
    if rows <= 0 {
        Seq::empty()
    } else {
        print_all_requests(board, rows - 1) + print_blocks_in_row(board, rows as i8, 10)
    }
}

/// Asks to erase the ten cells of `row`.
pub fn erase_row(row: i8, requests: &mut Vec<Request>)
    ensures
        final(requests)@ == old(requests)@ + erase_row_requests(row, 10),
{
    let ghost before = requests@;
    let mut col: i8 = 1;
    while col <= 10
        invariant
            1 <= col <= 11,
            requests@ == before + erase_row_requests(row, col - 1),
        decreases 11 - col,
    {
        requests.push(Request::EraseBlock { row, col });
        col += 1;
    }
}

/// Asks to erase every complete row.
pub fn erase_set_rows<B: SetBlocks>(board: &B, requests: &mut Vec<Request>)
    ensures
        final(requests)@ == old(requests)@ + erase_set_rows_requests(*board, 20),
{
    let ghost before = requests@;
    let mut row: i8 = 1;
    while row <= 20
        invariant
            1 <= row <= 21,
            requests@ == before + erase_set_rows_requests(*board, row - 1),
        decreases 21 - row,
    {
        if is_row_set(board, row) {
            erase_row(row, requests);
        }
        row += 1;
    }
}

/// Asks to erase every settled block.
pub fn erase_all_set_blocks<B: SetBlocks>(board: &B, requests: &mut Vec<Request>)
    ensures
        final(requests)@ == old(requests)@ + erase_all_requests(*board, 20),
{
    let ghost before = requests@;
    let mut row: i8 = 1;
    while row <= 20
        invariant
            1 <= row <= 21,
            requests@ == before + erase_all_requests(*board, row - 1),
        decreases 21 - row,
    {
        let ghost above = requests@;
        let mut col: i8 = 1;
        while col <= 10
            invariant
                1 <= row <= 20,
                1 <= col <= 11,
                requests@ == above + erase_blocks_in_row(*board, row, col - 1),
            decreases 11 - col,
        {
            match board.get(row, col) {
                None => (),
                Some(_) => requests.push(Request::EraseBlock { row, col }),
            }
            col += 1;
        }
        row += 1;
    }
}

/// Asks to draw every settled block, and to send the drawing to the
/// terminal.
pub fn print_set_blocks<B: SetBlocks>(board: &B, requests: &mut Vec<Request>)
    ensures
        final(requests)@ == (old(requests)@ + print_all_requests(*board, 20)).push(Request::Flush),
{
    let ghost before = requests@;
    let mut row: i8 = 1;
    while row <= 20
        invariant
            1 <= row <= 21,
            requests@ == before + print_all_requests(*board, row - 1),
        decreases 21 - row,
    {
        let ghost above = requests@;
        let mut col: i8 = 1;
        while col <= 10
            invariant
                1 <= row <= 20,
                1 <= col <= 11,
                requests@ == above + print_blocks_in_row(*board, row, col - 1),
            decreases 11 - col,
        {
            match board.get(row, col) {
                None => (),
                Some(block) => requests.push(Request::PrintBlock(block)),
            }
            col += 1;
        }
        row += 1;
    }
    requests.push(Request::Flush);
}

/// Locks `piece`: writes each of its four blocks into the board.
pub fn set_piece(board: &mut Board, piece: &Piece)
    requires
        fully_in_bounds(*piece),
    ensures
        *final(board) == locked(*old(board), *piece),
        well_formed(*old(board)) ==> well_formed(*final(board)),
{
    SetBlocks::set(board, piece.blocks[0]);
    SetBlocks::set(board, piece.blocks[1]);
    SetBlocks::set(board, piece.blocks[2]);
    SetBlocks::set(board, piece.blocks[3]);
}

/// The game as its contracts see it.
pub struct GameView {
    pub state: State,
    /// The falling piece.
    pub piece: Piece,
    /// The piece that falls next.
    pub next_piece: Piece,
    /// The settled blocks.
    pub board: Board,
    pub tally: Tally,
}

impl GameView {
    /// The falling piece is a spawned piece that was turned and moved and
    /// lies between the walls and above the floor, the next piece is fresh,
    /// and every settled block lies where it says it does.
    pub open spec fn well_formed(self) -> bool {
        &&& self.piece.well_formed()
        &&& 0 <= self.piece.anchor_row() <= 23
        &&& -6 <= self.piece.anchor_column() <= 6
        &&& self.next_piece == spawn(self.next_piece.ty)
        &&& well_formed(self.board)
        &&& self.tally.well_formed()
    }

    /// The falling piece can fall by one row.
    pub open spec fn falls(self) -> bool {
        can_fall(self.board, self.piece)
    }

    /// The falling piece cannot fall and lies on the board with all its
    /// blocks: the next fall step locks it.
    pub open spec fn locks(self) -> bool {
        !self.falls() && fully_in_bounds(self.piece)
    }

    /// The falling piece cannot fall and does not lie on the board with all
    /// its blocks: the next fall step ends the game.
    pub open spec fn ends(self) -> bool {
        !self.falls() && !fully_in_bounds(self.piece)
    }

    /// The next step can be taken: where it locks the piece, the score that
    /// follows fits in 64 bits.
    pub open spec fn can_step(self) -> bool {
        self.state is Fall && self.locks() ==> self.tally.can_update(
            completed_row_count(locked(self.board, self.piece)),
        )
    }

    /// The game after a fall step, where `fresh` is the piece that the piece
    /// getter hands over if the step locks the falling piece.
    pub open spec fn after_fall(self, fresh: Piece) -> GameView {
        if self.falls() {
            GameView { piece: self.piece.translated(1, 0), ..self }
        } else if self.ends() {
            GameView { state: State::GameOver, ..self }
        } else {
            let board = locked(self.board, self.piece);
            let set_rows = completed_row_count(board);
            GameView {
                state: if set_rows > 0 {
                    State::Clear
                } else {
                    State::Fall
                },
                piece: self.next_piece,
                next_piece: fresh,
                board,
                tally: self.tally.updated(set_rows),
            }
        }
    }

    /// What a fall step asks for.
    pub open spec fn fall_requests(self, fresh: Piece) -> Seq<Request> {
        if self.falls() {
            seq![
                Request::ErasePiece(self.piece),
                Request::PrintPiece(self.piece.translated(1, 0)),
                Request::Flush,
            ]
        } else if self.ends() {
            seq![Request::Flush]
        } else {
            let after = self.after_fall(fresh);
            (seq![Request::EraseNextPiece(self.next_piece), Request::PrintNextPiece(fresh)]
                + erase_set_rows_requests(after.board, 20)).push(
                Request::PrintScore(after.tally.snapshot()),
            ).push(Request::Flush)
        }
    }

    /// Milliseconds until the step after a fall step.
    pub open spec fn fall_wait(self) -> i32 {
        if self.falls() {
            level_table(self.tally.level).time
        } else if self.ends() {
            GAME_OVER_DELAY
        } else {
            SETTLE_DELAY
        }
    }

    /// The falling piece, turned, would stay within the columns of the board
    /// and lie on no settled block.
    pub open spec fn turn_accepted(self, clockwise: bool) -> bool {
        let turned = if clockwise {
            self.piece.turned_clockwise()
        } else {
            self.piece.turned_counter_clockwise()
        };
        within_columns(turned) && !collides(self.board, turned)
    }

    /// The falling piece, moved by `offset` columns, would stay within the
    /// columns of the board and lie on no settled block.
    pub open spec fn shift_accepted(self, offset: int) -> bool {
        within_columns(self.piece.translated(0, offset)) && !collides(
            self.board,
            self.piece.translated(0, offset),
        )
    }

    /// The key moves the falling piece.
    pub open spec fn moves(self, input: ReadResult) -> bool {
        !(self.state is GameOver) && match input {
            ReadResult::Up => self.turn_accepted(true),
            ReadResult::Down => self.falls(),
            ReadResult::Right => self.shift_accepted(1),
            ReadResult::Left => self.shift_accepted(-1),
            ReadResult::Other => false,
        }
    }

    /// Where the key takes the falling piece, if it moves it.
    pub open spec fn moved_piece(self, input: ReadResult) -> Piece {
        match input {
            ReadResult::Up => self.piece.turned_clockwise(),
            ReadResult::Down => resting_place(self.board, self.piece),
            ReadResult::Right => self.piece.translated(0, 1),
            ReadResult::Left => self.piece.translated(0, -1),
            ReadResult::Other => self.piece,
        }
    }

    /// The game after a key.
    pub open spec fn after_input(self, input: ReadResult) -> GameView {
        if self.moves(input) {
            GameView { piece: self.moved_piece(input), ..self }
        } else {
            self
        }
    }

    /// What a key asks for: nothing once the game is over; else the piece
    /// erased where it was and drawn where it is, if the key moved it, and
    /// the drawing sent to the terminal.
    pub open spec fn input_requests(self, input: ReadResult) -> Seq<Request> {
        if self.state is GameOver {
            Seq::empty()
        } else if self.moves(input) {
            seq![
                Request::ErasePiece(self.piece),
                Request::PrintPiece(self.moved_piece(input)),
                Request::Flush,
            ]
        } else {
            seq![Request::Flush]
        }
    }
}

/// What a game holds besides the source of its pieces.
struct Playfield {
    scoring: StdScoring,
    state: State,
    piece: Piece,
    next_piece: Piece,
    set_blocks: Board,
}

impl View for Playfield {
    type V = GameView;

    closed spec fn view(&self) -> GameView {
        GameView {
            state: self.state,
            piece: self.piece,
            next_piece: self.next_piece,
            board: self.set_blocks,
            tally: self.scoring@,
        }
    }
}

impl Playfield {
    #[verifier::type_invariant]
    spec fn inv(&self) -> bool {
        self@.well_formed()
    }
}

/// One timed step takes the game from `before` to `after`, returns `wait`
/// and asks for `requests`.
///
/// While a piece is falling, the step lets it fall, ends the game or locks
/// the piece. After rows were completed, it clears them. Once the game is
/// over, it asks for the score to be stored and no step follows.
pub open spec fn stepped(
    before: GameView,
    after: GameView,
    wait: Option<i32>,
    requests: Seq<Request>,
) -> bool {
    match before.state {
        State::Fall => {
            &&& after == before.after_fall(after.next_piece)
            &&& wait == Some(before.fall_wait())
            &&& requests == before.fall_requests(after.next_piece)
        },
        State::Clear => {
            &&& cleared(before.board, after.board)
            &&& after == (GameView { state: State::Fall, board: after.board, ..before })
            &&& wait == Some(SETTLE_DELAY)
            &&& requests == (erase_all_requests(before.board, 20) + print_all_requests(
                after.board,
                20,
            )).push(Request::Flush).push(Request::Flush)
        },
        State::GameOver => {
            &&& after == before
            &&& wait is None
            &&& requests == seq![Request::StoreScore(before.tally.snapshot()), Request::Flush]
        },
    }
}

/// A fall step ends the game exactly when the falling piece can neither fall
/// nor lies on the board with all its blocks, whatever the score and
/// whichever piece comes next. The step that ends the game asks for the short
/// delay; every other fall step leaves the game falling or clearing.
pub proof fn lemma_game_over_exactly_when_stuck(game: GameView, fresh: Piece)
    requires
        game.state is Fall,
    ensures
        game.after_fall(fresh).state is GameOver <==> !can_fall(game.board, game.piece)
            && !fully_in_bounds(game.piece),
        game.after_fall(fresh).state is GameOver ==> game.fall_wait() == GAME_OVER_DELAY,
        !(game.after_fall(fresh).state is GameOver) ==> game.after_fall(fresh).state is Fall
            || game.after_fall(fresh).state is Clear,
        can_fall(game.board, game.piece) ==> game.after_fall(fresh).state is Fall,
{
}

/// A game of Tetris.
pub struct TetrisGame<G: PieceGetter> {
    piece_getter: G,
    field: Playfield,
}

impl<G: PieceGetter> View for TetrisGame<G> {
    type V = GameView;

    closed spec fn view(&self) -> GameView {
        self.field@
    }
}

impl<G: PieceGetter> TetrisGame<G> {
    /// A new game: the first two pieces are drawn from `piece_getter`, the
    /// first of them falls, the board is empty and the score is zero.
    pub fn new(piece_getter: G) -> (game: Self)
        ensures
            game@.state is Fall,
            game@.piece == spawn(game@.piece.ty),
            game@.next_piece == spawn(game@.next_piece.ty),
            forall|r: int, c: int| game@.board.cell(r, c) is None,
            game@.tally == Tally::start(),
            game@.well_formed(),
    {
        let mut piece_getter = piece_getter;
        let piece = piece_getter.next_piece();
        let next_piece = piece_getter.next_piece();
        proof {
            lemma_spawn_well_formed(piece.ty);
        }
        TetrisGame {
            piece_getter,
            field: Playfield {
                scoring: scoring::new(),
                state: State::Fall,
                piece,
                next_piece,
                set_blocks: empty_board(),
            },
        }
    }

    /// Where the game stands.
    pub fn state(&self) -> (state: State)
        ensures
            state == self@.state,
    {
        self.field.state
    }

    /// The falling piece.
    pub fn piece(&self) -> (piece: Piece)
        ensures
            piece == self@.piece,
    {
        self.field.piece
    }

    /// The piece that falls next.
    pub fn next_piece(&self) -> (piece: Piece)
        ensures
            piece == self@.next_piece,
    {
        self.field.next_piece
    }

    /// The settled blocks.
    pub fn set_blocks(&self) -> (board: &Board)
        ensures
            *board == self@.board,
    {
        &self.field.set_blocks
    }

    /// Level, bonus and score.
    pub fn score(&self) -> (score: Score)
        ensures
            score == self@.tally.snapshot(),
            score.level == self@.tally.level,
            score.bonus == self@.tally.bonus,
            score.score == self@.tally.score,
            1 <= score.level <= LEVELS,
            1 <= score.bonus,
            0 <= score.score,
    {
        self.field.scoring.get_score()
    }

    /// Whether the next step can be taken without leaving the range of the
    /// score.
    pub fn can_step(&self) -> (fits: bool)
        ensures
            fits == self@.can_step(),
    {
        proof {
            use_type_invariant(&self.field);
            lemma_translated_well_formed(self.field.piece, 1, 0);
        }
        match self.field.state {
            State::Fall => {
                if can_move_rows(&self.field.set_blocks, &self.field.piece, 1) || !all_in_bounds(
                    &self.field.piece,
                ) {
                    true
                } else {
                    let mut board = self.field.set_blocks;
                    set_piece(&mut board, &self.field.piece);
                    self.field.scoring.can_update(set_row_count(&board))
                }
            },
            _ => true,
        }
    }

    /// Replaces the falling piece by `next`: the old one is erased, the new
    /// one drawn.
    fn update_piece(&mut self, next: &Piece, requests: &mut Vec<Request>)
        requires
            next.well_formed(),
            0 <= next.anchor_row() <= 23,
            -6 <= next.anchor_column() <= 6,
        ensures
            final(self)@ == (GameView { piece: *next, ..old(self)@ }),
            final(requests)@ == old(requests)@.push(Request::ErasePiece(old(self)@.piece)).push(
                Request::PrintPiece(*next),
            ),
    {
        proof {
            use_type_invariant(&self.field);
        }
        requests.push(Request::ErasePiece(self.field.piece));
        self.field.piece = *next;
        requests.push(Request::PrintPiece(self.field.piece));
    }

    /// Locks the falling piece and lets the next piece fall; a fresh piece
    /// becomes the next one.
    fn go_to_next_piece(&mut self, requests: &mut Vec<Request>)
        requires
            fully_in_bounds(old(self)@.piece),
        ensures
            final(self)@ == (GameView {
                piece: old(self)@.next_piece,
                next_piece: final(self)@.next_piece,
                board: locked(old(self)@.board, old(self)@.piece),
                ..old(self)@
            }),
            final(self)@.well_formed(),
            final(requests)@ == old(requests)@.push(
                Request::EraseNextPiece(old(self)@.next_piece),
            ).push(Request::PrintNextPiece(final(self)@.next_piece)),
    {
        proof {
            use_type_invariant(&self.field);
            lemma_spawn_well_formed(self.field.next_piece.ty);
        }
        let mut board = self.field.set_blocks;
        set_piece(&mut board, &self.field.piece);
        self.field.set_blocks = board;
        requests.push(Request::EraseNextPiece(self.field.next_piece));
        self.field.piece = self.field.next_piece;
        self.field.next_piece = self.piece_getter.next_piece();
        requests.push(Request::PrintNextPiece(self.field.next_piece));
    }

    /// A step while a piece is falling: the piece falls by one row; or, where
    /// it cannot and does not lie on the board with all its blocks, the game
    /// ends; or it is locked, the next piece comes, and the score is brought
    /// up to date.
    fn step_fall(&mut self, requests: &mut Vec<Request>) -> (wait: Option<i32>)
        requires
            old(self)@.state is Fall,
            old(self)@.can_step(),
            old(requests)@.len() == 0,
        ensures
            final(self)@ == old(self)@.after_fall(final(self)@.next_piece),
            final(self)@.well_formed(),
            wait == Some(old(self)@.fall_wait()),
            final(requests)@.push(Request::Flush) == old(self)@.fall_requests(
                final(self)@.next_piece,
            ),
    {
        proof {
            use_type_invariant(&self.field);
            lemma_translated_well_formed(self.field.piece, 1, 0);
        }
        if can_move_rows(&self.field.set_blocks, &self.field.piece, 1) {
            let translated = translate(&self.field.piece, 1, 0);
            proof {
                lemma_well_formed_bounds(translated);
            }
            self.update_piece(&translated, requests);
            Some(self.field.scoring.get_time())
        } else {
            if !all_in_bounds(&self.field.piece) {
                self.field.state = State::GameOver;
                assert(requests@.push(Request::Flush) =~= old(self)@.fall_requests(
                    self@.next_piece,
                ));
                return Some(GAME_OVER_DELAY);
            }
            self.go_to_next_piece(requests);
            let set_rows = set_row_count(&self.field.set_blocks);
            if set_rows > 0 {
                erase_set_rows(&self.field.set_blocks, requests);
                self.field.state = State::Clear;
            } else {
                proof {
                    lemma_no_rows_to_erase(self.field.set_blocks, 20);
                }
            }
            let mut scoring = self.field.scoring;
            let s = scoring.update(set_rows);
            self.field.scoring = scoring;
            requests.push(Request::PrintScore(s));
            Some(SETTLE_DELAY)
        }
    }

    /// A step after rows were completed: every settled block is erased, the
    /// complete rows are cleared, and what is left is drawn again.
    fn step_clear(&mut self, requests: &mut Vec<Request>) -> (wait: Option<i32>)
        requires
            old(requests)@.len() == 0,
        ensures
            cleared(old(self)@.board, final(self)@.board),
            final(self)@ == (GameView {
                state: State::Fall,
                board: final(self)@.board,
                ..old(self)@
            }),
            final(self)@.well_formed(),
            wait == Some(SETTLE_DELAY),
            final(requests)@ == (erase_all_requests(old(self)@.board, 20) + print_all_requests(
                final(self)@.board,
                20,
            )).push(Request::Flush),
    {
        proof {
            use_type_invariant(&self.field);
        }
        erase_all_set_blocks(&self.field.set_blocks, requests);
        let mut board = self.field.set_blocks;
        clear_set_rows(&mut board);
        self.field.set_blocks = board;
        print_set_blocks(&self.field.set_blocks, requests);
        self.field.state = State::Fall;
        assert(requests@ =~= (erase_all_requests(old(self)@.board, 20) + print_all_requests(
            self@.board,
            20,
        )).push(Request::Flush));
        Some(SETTLE_DELAY)
    }

    /// The step after the game has ended: the score is to be stored, and no
    /// further step follows.
    fn step_game_over(&mut self, requests: &mut Vec<Request>) -> (wait: Option<i32>)
        ensures
            final(self)@ == old(self)@,
            wait is None,
            final(requests)@ == old(requests)@.push(
                Request::StoreScore(old(self)@.tally.snapshot()),
            ),
    {
        requests.push(Request::StoreScore(self.field.scoring.get_score()));
        None
    }

    /// Turns the falling piece, unless the turned piece would leave the
    /// columns of the board or lie on a settled block.
    fn rotate(&mut self, clockwise: bool, requests: &mut Vec<Request>)
        ensures
            old(self)@.turn_accepted(clockwise) ==> final(self)@ == (GameView {
                piece: if clockwise {
                    old(self)@.piece.turned_clockwise()
                } else {
                    old(self)@.piece.turned_counter_clockwise()
                },
                ..old(self)@
            }) && final(requests)@ == old(requests)@.push(
                Request::ErasePiece(old(self)@.piece),
            ).push(Request::PrintPiece(final(self)@.piece)),
            !old(self)@.turn_accepted(clockwise) ==> final(self)@ == old(self)@ && final(requests)@ == old(requests)@,
    {
        proof {
            use_type_invariant(&self.field);
            lemma_turned_clockwise_well_formed(self.field.piece);
            lemma_turned_counter_clockwise_well_formed(self.field.piece);
        }
        let rotated = if clockwise {
            rotate_clockwise(&self.field.piece)
        } else {
            rotate_counter_clockwise(&self.field.piece)
        };
        if !in_bounds_cols(&rotated) || collides_with_set_blocks(&self.field.set_blocks, &rotated) {
            return ;
        }
        self.update_piece(&rotated, requests);
    }

    /// Lets the falling piece fall as far as it can.
    fn quick_drop(&mut self, requests: &mut Vec<Request>)
        ensures
            old(self)@.falls() ==> final(self)@ == (GameView {
                piece: resting_place(old(self)@.board, old(self)@.piece),
                ..old(self)@
            }) && final(requests)@ == old(requests)@.push(
                Request::ErasePiece(old(self)@.piece),
            ).push(Request::PrintPiece(final(self)@.piece)),
            !old(self)@.falls() ==> final(self)@ == old(self)@ && final(requests)@ == old(requests)@,
    {
        proof {
            use_type_invariant(&self.field);
            lemma_translated_well_formed(self.field.piece, 1, 0);
        }
        if !can_move_rows(&self.field.set_blocks, &self.field.piece, 1) {
            return ;
        }
        let mut translated = translate(&self.field.piece, 1, 0);
        proof {
            lemma_well_formed_bounds(translated);
            lemma_translated_well_formed(translated, 1, 0);
        }
        while can_move_rows(&self.field.set_blocks, &translated, 1)
            invariant
                translated.well_formed(),
                0 <= translated.anchor_row() <= 23,
                -6 <= translated.anchor_column() <= 6,
                translated.can_translate(1, 0),
                resting_place(self.field.set_blocks, translated) == resting_place(
                    self.field.set_blocks,
                    self.field.piece,
                ),
            decreases 23 - translated.anchor_row(),
        {
            proof {
                lemma_translated_well_formed(translated, 1, 0);
            }
            translated = translate(&translated, 1, 0);
            proof {
                lemma_well_formed_bounds(translated);
                lemma_translated_well_formed(translated, 1, 0);
            }
        }
        self.update_piece(&translated, requests);
    }

    /// Moves the falling piece by `column_offset` columns, unless the moved
    /// piece would leave the columns of the board or lie on a settled block.
    fn translate_cols(&mut self, column_offset: i8, requests: &mut Vec<Request>)
        requires
            -1 <= column_offset <= 1,
        ensures
            old(self)@.shift_accepted(column_offset as int) ==> final(self)@ == (GameView {
                piece: old(self)@.piece.translated(0, column_offset as int),
                ..old(self)@
            }) && final(requests)@ == old(requests)@.push(
                Request::ErasePiece(old(self)@.piece),
            ).push(Request::PrintPiece(final(self)@.piece)),
            !old(self)@.shift_accepted(column_offset as int) ==> final(self)@ == old(self)@
                && final(requests)@ == old(requests)@,
    {
        proof {
            use_type_invariant(&self.field);
            lemma_translated_well_formed(self.field.piece, 0, column_offset as int);
        }
        let translated = translate(&self.field.piece, 0, column_offset);
        if !in_bounds_cols(&translated) || collides_with_set_blocks(
            &self.field.set_blocks,
            &translated,
        ) {
            return ;
        }
        proof {
            lemma_well_formed_bounds(translated);
        }
        self.update_piece(&translated, requests);
    }

    /// What the display is to show when the game starts: the next piece and
    /// the score.
    pub fn init(&self) -> (requests: Vec<Request>)
        ensures
            requests@ == seq![
                Request::PrintNextPiece(self@.next_piece),
                Request::PrintScore(self@.tally.snapshot()),
                Request::Flush,
            ],
    {
        let mut requests = Vec::new();
        requests.push(Request::PrintNextPiece(self.field.next_piece));
        requests.push(Request::PrintScore(self.field.scoring.get_score()));
        requests.push(Request::Flush);
        requests
    }

    /// One timed step. It returns the milliseconds until the next step, or
    /// `None` when the game is over and no step follows, and what the step
    /// asks for.
    ///
    /// The game ends exactly when the falling piece can neither fall nor
    /// lies on the board with all its blocks.
    pub fn handle_step(&mut self) -> (step: (Option<i32>, Vec<Request>))
        requires
            old(self)@.can_step(),
        ensures
            final(self)@.well_formed(),
            stepped(old(self)@, final(self)@, step.0, step.1@),
            old(self)@.state is Fall ==> (final(self)@.state is GameOver <==> !can_fall(
                old(self)@.board,
                old(self)@.piece,
            ) && !fully_in_bounds(old(self)@.piece)),
    {
        proof {
            use_type_invariant(&self.field);
        }
        let mut requests = Vec::new();
        let step_time = match self.field.state {
            State::Fall => self.step_fall(&mut requests),
            State::Clear => self.step_clear(&mut requests),
            State::GameOver => self.step_game_over(&mut requests),
        };
        requests.push(Request::Flush);
        proof {
            let before = old(self)@;
            match before.state {
                State::Fall => {},
                State::Clear => {
                    assert(requests@ =~= (erase_all_requests(before.board, 20)
                        + print_all_requests(self@.board, 20)).push(Request::Flush).push(
                        Request::Flush,
                    ));
                },
                State::GameOver => {
                    assert(requests@ =~= seq![
                        Request::StoreScore(before.tally.snapshot()),
                        Request::Flush,
                    ]);
                },
            }
        }
        (step_time, requests)
    }

    /// One key of the player: up turns the falling piece clockwise, down
    /// drops it, right and left move it by one column. A move that would
    /// take the piece out of the columns of the board or onto a settled
    /// block is not made. Once the game is over, keys do nothing.
    pub fn handle_input(&mut self, input: ReadResult) -> (requests: Vec<Request>)
        requires
            !(input is Other),
        ensures
            final(self)@ == old(self)@.after_input(input),
            final(self)@.well_formed(),
            requests@ == old(self)@.input_requests(input),
    {
        proof {
            use_type_invariant(&self.field);
        }
        let mut requests = Vec::new();
        match self.field.state {
            State::GameOver => {
                return requests;
            },
            _ => {},
        }
        match input {
            ReadResult::Up => self.rotate(true, &mut requests),
            ReadResult::Down => self.quick_drop(&mut requests),
            ReadResult::Right => self.translate_cols(1, &mut requests),
            ReadResult::Left => self.translate_cols(-1, &mut requests),
            ReadResult::Other => {},
        }
        requests.push(Request::Flush);
        proof {
            use_type_invariant(&self.field);
        }
        requests
    }

    /// The player quits: the score is to be stored.
    pub fn handle_quit(&self) -> (requests: Vec<Request>)
        ensures
            requests@ == seq![Request::StoreScore(self@.tally.snapshot())],
            self@.well_formed(),
    {
        proof {
            use_type_invariant(&self.field);
        }
        let mut requests = Vec::new();
        requests.push(Request::StoreScore(self.field.scoring.get_score()));
        requests
    }
}

/// Where no row among rows 1 to `rows` is complete, there is none to erase.
proof fn lemma_no_rows_to_erase<B: SetBlocks>(board: B, rows: int)
    requires
        completed_row_count(board) == 0,
        rows <= 20,
    ensures
        erase_set_rows_requests(board, rows) == Seq::<Request>::empty(),
    decreases rows,
{
    if rows > 0 {
        if row_complete(board, rows) {
            crate::rows::lemma_complete_rows_counted(board, rows);
        }
        lemma_no_rows_to_erase(board, rows - 1);
    }
}

} // verus!
