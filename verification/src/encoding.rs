use vstd::prelude::*;
use vstd::string::StringExecFns;

use crate::engine::{
    initial_position, legal_moves, legal_moves_of, move_eq, play_move, position_after, san_of,
    san_string, startpos,
};
use crate::error::Error;

verus! {

// A game is stored as one byte per ply: the index of the played move in the
// legal-move list of the position it was played from. The list's order is the
// rules engine's stable enumeration order (see `legal_moves_of`), so a byte
// has meaning only together with its position.

/// What `encode_move` returns: the index of the first occurrence of the move
/// in the position's legal-move list, or `InvalidMove` when the move is not
/// legal there.
pub open spec fn spec_encode(p: shakmaty::Chess, m: shakmaty::Move) -> Result<u8, Error> {
    match legal_moves_of(p).index_of_first(m) {
        Some(i) => Ok(i as u8),
        None => Err(Error::InvalidMove),
    }
}

/// What `decode_move` returns: the move at the byte's index in the position's
/// legal-move list, or `None` when the byte is at or past the list's end.
pub open spec fn spec_decode(p: shakmaty::Chess, byte: u8) -> Option<shakmaty::Move> {
    if (byte as int) < legal_moves_of(p).len() {
        Some(legal_moves_of(p)[byte as int])
    } else {
        None
    }
}

/// Encode a move as one byte: its index in the legal-move list of `chess`.
/// A move that is not legal in `chess` is rejected with `InvalidMove`.
pub fn encode_move(m: &shakmaty::Move, chess: &shakmaty::Chess) -> (r: Result<u8, Error>)
    ensures
        r == spec_encode(*chess, *m),
        r is Ok <==> legal_moves_of(*chess).contains(*m),
        r is Ok ==> spec_decode(*chess, r->Ok_0) == Some(*m),
        r is Err ==> r == Err::<u8, Error>(Error::InvalidMove),
{
    let moves = legal_moves(chess);
    let mut i: usize = 0;
    while i < moves.len()
        invariant
            moves@ == legal_moves_of(*chess),
            moves@.len() <= 256,
            i <= moves.len(),
            forall|j: int| 0 <= j < i ==> legal_moves_of(*chess)[j] != *m,
        decreases moves.len() - i,
    {
        if move_eq(&moves[i], m) {
            proof {
                let all = legal_moves_of(*chess);
                assert(all[i as int] == *m);
                assert(all.contains(*m));
                all.index_of_first_ensures(*m);
                let idx = all.index_of_first(*m)->Some_0;
                assert(idx == i as int) by {
                    if idx < i as int {
                        assert(all[idx] != *m);
                    }
                    if idx > i as int {
                        assert(all[i as int] != *m);
                    }
                }
            }
            return Ok(i as u8);
        }
        i += 1;
    }
    proof {
        legal_moves_of(*chess).index_of_first_ensures(*m);
    }
    Err(Error::InvalidMove)
}

/// Decode one byte against a position: `Some` of the move at that index of the
/// legal-move list, or `None` when the byte is out of range. An out-of-range
/// byte is an expected outcome (corrupt data, another format version), not a
/// failure.
pub fn decode_move(byte: u8, chess: &shakmaty::Chess) -> (r: Option<shakmaty::Move>)
    ensures
        r == spec_decode(*chess, byte),
        byte as int >= legal_moves_of(*chess).len() ==> r is None,
        (byte as int) < legal_moves_of(*chess).len() ==> r == Some(
            legal_moves_of(*chess)[byte as int],
        ),
{
    let mut moves = legal_moves(chess);
    if (byte as usize) < moves.len() {
        Some(moves.remove(byte as usize))
    } else {
        None
    }
}

/// Round trip: a move that is legal in a position survives encoding and
/// decoding in that position unchanged. The length bound holds of every chess
/// position (the engine's move list has capacity 256) and keeps the index
/// within one byte.
pub proof fn lemma_encode_decode_roundtrip(p: shakmaty::Chess, m: shakmaty::Move)
    requires
        legal_moves_of(p).contains(m),
        legal_moves_of(p).len() <= 256,
    ensures
        spec_encode(p, m) is Ok,
        spec_decode(p, spec_encode(p, m)->Ok_0) == Some(m),
{
    legal_moves_of(p).index_of_first_ensures(m);
}

/// The SAN texts of the plies a byte sequence decodes to when replayed from
/// position `p`, or `Err` of the ply index of the first undecodable byte;
/// `ply` counts the plies already decoded before `bytes`.
pub open spec fn spec_decode_plies(
    p: shakmaty::Chess,
    bytes: Seq<u8>,
    ply: int,
) -> Result<Seq<Seq<char>>, int>
    decreases bytes.len(),
{
    if bytes.len() == 0 {
        Ok(Seq::empty())
    } else if (bytes[0] as int) < legal_moves_of(p).len() {
        let m = legal_moves_of(p)[bytes[0] as int];
        match spec_decode_plies(position_after(p, m), bytes.drop_first(), ply + 1) {
            Ok(rest) => Ok(seq![san_of(p, m)] + rest),
            Err(i) => Err(i),
        }
    } else {
        Err(ply)
    }
}

/// Texts joined with a single space between neighbours.
pub open spec fn join_spaces(parts: Seq<Seq<char>>) -> Seq<char>
    decreases parts.len(),
{
    if parts.len() == 0 {
        Seq::empty()
    } else if parts.len() == 1 {
        parts[0]
    } else {
        join_spaces(parts.drop_last()) + seq![' '] + parts.last()
    }
}

/// What `decode_moves` returns: the space-joined SAN texts of the game's
/// plies, replayed from the standard initial position, or the ply index at
/// which decoding fails.
pub open spec fn spec_decode_moves(bytes: Seq<u8>) -> Result<Seq<char>, int> {
    match spec_decode_plies(startpos(true), bytes, 0) {
        Ok(parts) => Ok(join_spaces(parts)),
        Err(i) => Err(i),
    }
}

/// Decode a full game: replay the bytes from the standard initial position
/// and format each ply in short algebraic notation, space-separated. One
/// undecodable byte fails the whole game with `CorruptGameData` carrying its
/// ply index; nothing is truncated or skipped silently.
pub fn decode_moves(moves_bytes: Vec<u8>) -> (r: Result<String, Error>)
    ensures
        spec_decode_moves(moves_bytes@) matches Ok(text) ==> r matches Ok(s) && s@ == text,
        spec_decode_moves(moves_bytes@) matches Err(i) ==> r == Err::<String, Error>(
            Error::CorruptGameData(i as usize),
        ),
        moves_bytes@.len() == 0 ==> (r matches Ok(s) && s@ == Seq::<char>::empty()),
{
    let ghost all_bytes = moves_bytes@;
    let mut pos = initial_position();
    let mut out = String::new();
    let ghost mut parts: Seq<Seq<char>> = Seq::empty();
    let mut k: usize = 0;
    let n = moves_bytes.len();
    proof {
        assert(all_bytes.skip(0) =~= all_bytes);
        match spec_decode_plies(startpos(true), all_bytes, 0) {
            Ok(rest) => {
                assert(parts + rest =~= rest);
            },
            Err(_) => {},
        }
    }
    while k < n
        invariant
            n == all_bytes.len(),
            moves_bytes@ == all_bytes,
            k <= n,
            parts.len() == k,
            out@ == join_spaces(parts),
            match spec_decode_plies(pos, all_bytes.skip(k as int), k as int) {
                Ok(rest) => spec_decode_plies(startpos(true), all_bytes, 0) == Ok::<_, int>(
                    parts + rest,
                ),
                Err(i) => spec_decode_plies(startpos(true), all_bytes, 0) == Err::<
                    Seq<Seq<char>>,
                    int,
                >(i),
            },
        decreases n - k,
    {
        let ghost rem = all_bytes.skip(k as int);
        let byte = moves_bytes[k];
        let mut legal = legal_moves(&pos);
        proof {
            assert(rem[0] == all_bytes[k as int]);
        }
        if (byte as usize) < legal.len() {
            let ghost prev = pos;
            let m = legal.remove(byte as usize);
            let san = san_string(&pos, &m);
            if k > 0 {
                out.append(" ");
            }
            out.append(san.as_str());
            play_move(&mut pos, &m);
            proof {
                reveal_strlit(" ");
                assert(" "@ =~= seq![' ']);
                assert(rem.drop_first() =~= all_bytes.skip(k as int + 1));
                let ghost old_parts = parts;
                parts = parts.push(san_of(prev, m));
                assert(parts.drop_last() =~= old_parts);
                match spec_decode_plies(pos, all_bytes.skip(k as int + 1), k as int + 1) {
                    Ok(rest) => {
                        assert(old_parts + (seq![san_of(prev, m)] + rest) =~= parts + rest);
                    },
                    Err(_) => {},
                }
            }
            k += 1;
        } else {
            proof {
                assert(spec_decode_plies(pos, rem, k as int) == Err::<Seq<Seq<char>>, int>(
                    k as int,
                ));
            }
            return Err(Error::CorruptGameData(k));
        }
    }
    proof {
        assert(all_bytes.skip(n as int) =~= Seq::<u8>::empty());
        match spec_decode_plies(startpos(true), all_bytes, 0) {
            Ok(rest) => {
                assert(parts + Seq::<Seq<char>>::empty() =~= parts);
            },
            Err(_) => {},
        }
    }
    Ok(out)
}

/// Sequence decoding is deterministic: what a byte sequence decodes to,
/// replayed from the standard initial position, is a function of the bytes
/// alone, so two decodes of equal sequences yield equal outcomes.
pub proof fn lemma_sequence_decode_deterministic(b1: Seq<u8>, b2: Seq<u8>)
    requires
        b1 == b2,
    ensures
        spec_decode_moves(b1) == spec_decode_moves(b2),
{
}

/// An empty move sequence decodes to the empty string and replays nothing.
pub proof fn lemma_decode_moves_empty()
    ensures
        spec_decode_moves(Seq::empty()) == Ok::<Seq<char>, int>(Seq::<char>::empty()),
{
    assert(spec_decode_plies(startpos(true), Seq::empty(), 0) == Ok::<Seq<Seq<char>>, int>(
        Seq::empty(),
    ));
}

} // verus!
