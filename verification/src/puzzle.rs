use vstd::prelude::*;

use crate::error::Error;

verus! {

/// How many puzzles one store query draws, and so the most one batch holds.
pub const BATCH_SIZE: usize = 20;

/// One puzzle record: an identifier, a starting position, the solution moves,
/// and its rating data. Loaded read-only from the puzzle store and never
/// changed here.
#[derive(Debug)]
pub struct Puzzle {
    pub id: i32,
    pub fen: String,
    pub moves: String,
    pub rating: i32,
    pub rating_deviation: i32,
    pub popularity: i32,
    pub nb_plays: i32,
}

impl Clone for Puzzle {
    /// An exact copy of the record.
    fn clone(&self) -> (r: Self)
        ensures
            r == *self,
    {
        Puzzle {
            id: self.id,
            fen: self.fen.clone(),
            moves: self.moves.clone(),
            rating: self.rating,
            rating_deviation: self.rating_deviation,
            popularity: self.popularity,
            nb_plays: self.nb_plays,
        }
    }
}

/// A bounded batch of sampled puzzles together with the rating window it was
/// drawn under and how many of its puzzles were already served.
///
/// Within one refill epoch the cache serves the batch's puzzles one by one in
/// the order fixed at refill time, each exactly once. The store is only
/// queried again when a refill is due (see `spec_needs_refill`), which bounds
/// the expensive randomized query to one per epoch. Callers receive copies,
/// never references into the batch.
#[derive(Debug)]
pub struct PuzzleCache {
    cache: Vec<Puzzle>,
    counter: usize,
    min_rating: usize,
    max_rating: usize,
}

impl PuzzleCache {
    /// The puzzles of the current batch, in the order fixed at refill time.
    pub closed spec fn batch(self) -> Seq<Puzzle> {
        self.cache@
    }

    /// How many puzzles of the current batch were already served.
    pub closed spec fn served(self) -> nat {
        self.counter as nat
    }

    /// The rating window the current batch was sampled under.
    pub closed spec fn window(self) -> (usize, usize) {
        (self.min_rating, self.max_rating)
    }

    /// A refill is due when the batch is empty, the requested window differs
    /// from the one the batch was sampled under, or the whole batch was
    /// already served. A window change forces a refill even while puzzles
    /// remain: freshness wins over reuse.
    pub open spec fn spec_needs_refill(self, min_rating: usize, max_rating: usize) -> bool {
        ||| self.batch().len() == 0
        ||| self.window() != (min_rating, max_rating)
        ||| self.served() >= BATCH_SIZE
    }

    /// An empty cache: no batch, nothing served, a zero rating window.
    pub fn new() -> (c: Self)
        ensures
            c.batch() == Seq::<Puzzle>::empty(),
            c.served() == 0,
            c.window() == (0usize, 0usize),
    {
        let c = PuzzleCache { cache: Vec::new(), counter: 0, min_rating: 0, max_rating: 0 };
        proof {
            assert(c.batch() =~= Seq::<Puzzle>::empty());
        }
        c
    }

    /// Decide whether serving under the requested window needs a fresh store
    /// sample first.
    pub fn needs_refill(&self, min_rating: usize, max_rating: usize) -> (r: bool)
        ensures
            r == self.spec_needs_refill(min_rating, max_rating),
    {
        self.cache.len() == 0 || self.min_rating != min_rating || self.max_rating != max_rating
            || self.counter >= BATCH_SIZE
    }

    /// Install a freshly sampled batch wholesale: record the window it was
    /// sampled under and reset the serve count, discarding the old batch.
    pub fn refill(&mut self, puzzles: Vec<Puzzle>, min_rating: usize, max_rating: usize)
        requires
            puzzles@.len() <= BATCH_SIZE,
        ensures
            final(self).batch() == puzzles@,
            final(self).served() == 0,
            final(self).window() == (min_rating, max_rating),
    {
        self.cache = puzzles;
        self.counter = 0;
        self.min_rating = min_rating;
        self.max_rating = max_rating;
    }

    /// Serve the next unserved puzzle of the batch and advance the serve
    /// count; `None` once every sampled puzzle of this epoch was served. Each
    /// batch position is served at most once per epoch, in batch order.
    pub fn get_next_puzzle(&mut self) -> (r: Option<Puzzle>)
        ensures
            old(self).served() < old(self).batch().len() ==> {
                &&& r == Some(old(self).batch()[old(self).served() as int])
                &&& final(self).batch() == old(self).batch()
                &&& final(self).served() == old(self).served() + 1
                &&& final(self).window() == old(self).window()
            },
            old(self).served() >= old(self).batch().len() ==> r is None && *final(self) == *old(
                self,
            ),
    {
        if self.counter < self.cache.len() {
            let p = self.cache[self.counter].clone();
            self.counter = self.counter + 1;
            Some(p)
        } else {
            None
        }
    }

    /// Serve the next puzzle, or fail with `NoPuzzlesAvailable` when the
    /// epoch's batch is exhausted (the store returned fewer puzzles than the
    /// capacity and all of them were served). Nothing stale or out of range is
    /// ever returned in its place.
    pub fn serve(&mut self) -> (r: Result<Puzzle, Error>)
        ensures
            old(self).served() < old(self).batch().len() ==> {
                &&& r == Ok::<Puzzle, Error>(old(self).batch()[old(self).served() as int])
                &&& final(self).batch() == old(self).batch()
                &&& final(self).served() == old(self).served() + 1
                &&& final(self).window() == old(self).window()
            },
            old(self).served() >= old(self).batch().len() ==> r == Err::<Puzzle, Error>(
                Error::NoPuzzlesAvailable,
            ) && *final(self) == *old(self),
    {
        match self.get_next_puzzle() {
            Some(p) => Ok(p),
            None => Err(Error::NoPuzzlesAvailable),
        }
    }
}

/// Check a requested rating window: the minimum must not exceed the maximum.
/// Both bounds are non-negative by type.
pub fn validate_window(min_rating: usize, max_rating: usize) -> (r: Result<(), Error>)
    ensures
        min_rating <= max_rating ==> r is Ok,
        min_rating > max_rating ==> r == Err::<(), Error>(Error::InvalidRatingWindow),
{
    if min_rating <= max_rating {
        Ok(())
    } else {
        Err(Error::InvalidRatingWindow)
    }
}

/// Summary of one puzzle database: its display title, how many puzzles it
/// holds, its size on disk, and where it lies.
#[derive(Debug)]
pub struct PuzzleDatabaseInfo {
    pub title: String,
    pub description: String,
    pub puzzle_count: usize,
    pub storage_size: usize,
    pub path: String,
}

impl PuzzleDatabaseInfo {
    /// Gather the facts about one puzzle database; the description is left
    /// empty.
    pub fn new(title: String, puzzle_count: usize, storage_size: usize, path: String) -> (r: Self)
        ensures
            r.title == title,
            r.description@ == Seq::<char>::empty(),
            r.puzzle_count == puzzle_count,
            r.storage_size == storage_size,
            r.path == path,
    {
        PuzzleDatabaseInfo { title, description: String::new(), puzzle_count, storage_size, path }
    }
}

} // verus!
