//! Where the next piece comes from.

use crate::pieces::{self, spawn, Piece, PieceType};
use rand::rngs::OsRng;
use rand::seq::SliceRandom;
use vstd::pervasive::unreached;
use vstd::prelude::*;

verus! {

/// The operating system's random number generator, of the `rand` crate.
#[verifier::external_type_specification]
#[verifier::external_body]
pub struct ExOsRng(OsRng);

/// A source of pieces.
pub trait PieceGetter {
    /// The next piece to enter the board: a fresh piece of some type.
    fn next_piece(&mut self) -> (piece: Piece)
        ensures
            piece == spawn(piece.ty),
    ;
}

/// Draws each piece's type at random, every type being as likely as the
/// others.
pub struct RandomPieceGetter {
    rng: OsRng,
}

/// `rand::rngs::OsRng`, a unit struct: the handle on the operating system's
/// generator. Nothing is claimed of it.
#[verifier::external_body]
fn os_rng() -> OsRng {
    OsRng
}

/// `rand::seq::SliceRandom::choose` on a slice, with the chosen item copied
/// out. The claim is the one of its documentation and source: `None` for an
/// empty slice, else one of the slice's items. Which one is left open. The
/// call panics if the operating system cannot give random bytes.
#[verifier::external_body]
fn choose_type(rng: &mut OsRng, types: &[PieceType]) -> (chosen: Option<PieceType>)
    ensures
        types@.len() == 0 ==> chosen is None,
        types@.len() > 0 ==> chosen is Some && types@.contains(chosen->0),
{
    types.choose(rng).copied()
}

/// The seven types, in the order in which a piece's type is drawn from them.
pub open spec fn all_piece_types() -> Seq<PieceType> {
    seq![
        PieceType::I,
        PieceType::J,
        PieceType::L,
        PieceType::O,
        PieceType::S,
        PieceType::T,
        PieceType::Z,
    ]
}

/// The seven types from which a piece's type is drawn.
pub fn piece_types() -> (types: [PieceType; 7])
    ensures
        types@ == all_piece_types(),
{
    let types = [
        PieceType::I,
        PieceType::J,
        PieceType::L,
        PieceType::O,
        PieceType::S,
        PieceType::T,
        PieceType::Z,
    ];
    assert(types@ =~= all_piece_types());
    types
}

/// A source of pieces that draws from the operating system's random numbers.
pub fn new() -> RandomPieceGetter {
    RandomPieceGetter { rng: os_rng() }
}

/// The type that was drawn, as the piece getter takes it.
fn drawn(chosen: Option<PieceType>) -> (ty: PieceType)
    requires
        chosen is Some,
    ensures
        chosen == Some(ty),
{
    match chosen {
        Some(ty) => ty,
        None => unreached(),
    }
}

impl PieceGetter for RandomPieceGetter {
    fn next_piece(&mut self) -> (piece: Piece) {
        let types = piece_types();
        let chosen = choose_type(&mut self.rng, types.as_slice());
        pieces::new(drawn(chosen))
    }
}

} // verus!
