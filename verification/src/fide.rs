use vstd::prelude::*;

verus! {

/// One row of the FIDE players list. Absent text fields are `None`, never an
/// empty string (see `empty_string_to_none`); absent numbers are `None`.
#[derive(Debug, Clone)]
pub struct FidePlayer {
    pub fideid: u32,
    pub name: String,
    pub country: String,
    pub sex: String,
    pub title: Option<String>,
    pub w_title: Option<String>,
    pub o_title: Option<String>,
    pub foa_title: Option<String>,
    pub rating: Option<u16>,
    pub games: Option<u16>,
    pub k: Option<u16>,
    pub rapid_rating: Option<u16>,
    pub rapid_games: Option<u16>,
    pub rapid_k: Option<u16>,
    pub blitz_rating: Option<u16>,
    pub blitz_games: Option<u16>,
    pub blitz_k: Option<u16>,
    pub birthday: Option<u16>,
    pub flag: Option<String>,
}

/// The players of one FIDE list download.
#[derive(Debug, Clone)]
pub struct PlayersList {
    pub players: Vec<FidePlayer>,
}

/// Normalization of optional text fields as they are read: an empty string
/// stands for an absent value, any other string is kept as it is.
pub fn empty_string_to_none(s: String) -> (r: Option<String>)
    ensures
        s@.len() == 0 ==> r is None,
        s@.len() > 0 ==> r == Some(s),
{
    if s.as_str().is_empty() {
        None
    } else {
        Some(s)
    }
}

} // verus!
