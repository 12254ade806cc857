use shakmaty::Position;
use vstd::prelude::*;

verus! {

// The chess rules engine is the shakmaty crate. The codec's correctness rests
// on one invariant of it: for a given position value, `legal_moves` returns
// the same moves in the same order on every call. The items below declare the
// engine's types and give its calls contracts over named, deterministic
// results.

#[verifier::external_type_specification]
#[verifier::external_body]
pub struct ExChess(shakmaty::Chess);

#[verifier::external_type_specification]
#[verifier::external_body]
pub struct ExMove(shakmaty::Move);

/// The legal moves of a position, in the stable order the rules engine
/// enumerates them; a deterministic function of the position value.
pub uninterp spec fn legal_moves_of(p: shakmaty::Chess) -> Seq<shakmaty::Move>;

/// The standard initial position, applied as `startpos(true)`.
pub uninterp spec fn startpos(standard: bool) -> shakmaty::Chess;

/// The short algebraic notation of a move, relative to the position it is
/// played in, with a check or mate suffix where one applies.
pub uninterp spec fn san_of(p: shakmaty::Chess, m: shakmaty::Move) -> Seq<char>;

/// The position reached by playing a legal move.
pub uninterp spec fn position_after(p: shakmaty::Chess, m: shakmaty::Move) -> shakmaty::Chess;

/// Relies on `shakmaty::Chess::default`: the standard initial position, the
/// same value on every call.
#[verifier::external_body]
pub(crate) fn initial_position() -> (r: shakmaty::Chess)
    ensures
        r == startpos(true),
{
    shakmaty::Chess::default()
}

/// Relies on `shakmaty::Position::legal_moves`: the legal moves of a position,
/// a deterministic function of its value. The result is a `MoveList`, an
/// `ArrayVec` whose capacity is 256, so the list never holds more than 256
/// moves.
#[verifier::external_body]
pub(crate) fn legal_moves(p: &shakmaty::Chess) -> (r: Vec<shakmaty::Move>)
    ensures
        r@ == legal_moves_of(*p),
        r@.len() <= 256,
{
    p.legal_moves().into_iter().collect()
}

/// Relies on the derived `PartialEq` of `shakmaty::Move`: structural equality
/// of the two move values.
#[verifier::external_body]
pub(crate) fn move_eq(a: &shakmaty::Move, b: &shakmaty::Move) -> (r: bool)
    ensures
        r == (*a == *b),
{
    a == b
}

/// Relies on `shakmaty::san::SanPlus::from_move` and the `Display` of its
/// result: the SAN text of a legal move, a deterministic function of the
/// position and the move.
#[verifier::external_body]
pub(crate) fn san_string(p: &shakmaty::Chess, m: &shakmaty::Move) -> (r: String)
    requires
        legal_moves_of(*p).contains(*m),
    ensures
        r@ == san_of(*p, *m),
{
    shakmaty::san::SanPlus::from_move(p.clone(), m).to_string()
}

/// Relies on `shakmaty::Position::play_unchecked`: advances the position by a
/// move. The move must be legal; on an illegal one the call may panic or
/// corrupt the position, so illegal moves are excluded here.
#[verifier::external_body]
pub(crate) fn play_move(p: &mut shakmaty::Chess, m: &shakmaty::Move)
    requires
        legal_moves_of(*old(p)).contains(*m),
    ensures
        *final(p) == position_after(*old(p), *m),
{
    p.play_unchecked(m)
}

} // verus!
