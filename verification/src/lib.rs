//! Compact storage for chess games and rating-bounded puzzle serving.
//!
//! The move codec stores a game as one byte per ply: the index of the played
//! move in the legal-move list of the position it was played from, as the
//! rules engine enumerates it. The puzzle cache serves randomized,
//! rating-bounded puzzle batches while bounding how often the underlying
//! store is queried.

mod encoding;
mod engine;
mod error;
mod fide;
mod puzzle;

pub use encoding::{
    decode_move, decode_moves, encode_move, join_spaces, lemma_decode_moves_empty,
    lemma_encode_decode_roundtrip, lemma_sequence_decode_deterministic, spec_decode,
    spec_decode_moves, spec_decode_plies, spec_encode,
};
pub use engine::{legal_moves_of, position_after, san_of, startpos};
pub use error::Error;
pub use fide::{empty_string_to_none, FidePlayer, PlayersList};
pub use puzzle::{validate_window, Puzzle, PuzzleCache, PuzzleDatabaseInfo, BATCH_SIZE};
