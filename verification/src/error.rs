//! The ways in which an operation on a game can fail.

use vstd::prelude::*;

verus! {

/// Why an operation on a game was not carried out. A game that returns one
/// of these is as it was before the call.
#[derive(Copy, Clone, Debug, PartialEq, Eq, Hash, Structural)]
pub enum GameError {
    /// The decks do not cover the players of the game one for one.
    DeckMismatch,
    /// No player of the game has the given id.
    UnknownPlayer,
    /// The card database has no card of a name that a deck lists.
    UnknownCard,
    /// Objects can be put into a library only; the other zones are not
    /// supported yet.
    UnsupportedZone,
    /// The game cannot hold as many objects as it would have.
    TooManyObjects,
}

} // verus!
