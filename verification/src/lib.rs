//! A terminal Tetris engine: the pieces and their rotations, the grid of
//! settled blocks, collision and bounds checks, line clearing, scoring and
//! the game's state machine with its step scheduling.

pub mod collision;
pub mod graphics;
pub mod input_reader;
pub mod main_loop;
pub mod piece_getter;
pub mod pieces;
pub mod rows;
pub mod score_keeper;
pub mod scoring;
pub mod set_blocks;
pub mod tetris;
