use vstd::prelude::*;

verus! {

/// Errors reported by the move codec and the puzzle sampling cache.
///
/// Every failure of this library is returned as one of these values;
/// nothing is retried internally and nothing panics.
#[derive(Debug, Clone, PartialEq, Eq, Structural)]
pub enum Error {
    /// `encode_move` was handed a move that is not legal in the given position.
    InvalidMove,
    /// A byte of an encoded game has no corresponding legal move; the payload
    /// is the ply index (0-based) at which decoding failed.
    CorruptGameData(usize),
    /// The current batch holds no further puzzle for this request.
    NoPuzzlesAvailable,
    /// The puzzle store could not be reached.
    StoreUnavailable,
    /// A rating window with its minimum above its maximum.
    InvalidRatingWindow,
}

} // verus!
