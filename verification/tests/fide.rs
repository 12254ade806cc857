use chess_store::{empty_string_to_none, FidePlayer, PlayersList};

fn sample_player() -> FidePlayer {
    FidePlayer {
        fideid: 1503014,
        name: "Carlsen, Magnus".to_string(),
        country: "NOR".to_string(),
        sex: "M".to_string(),
        title: Some("GM".to_string()),
        w_title: None,
        o_title: None,
        foa_title: None,
        rating: Some(2830),
        games: Some(0),
        k: Some(10),
        rapid_rating: Some(2820),
        rapid_games: Some(0),
        rapid_k: Some(10),
        blitz_rating: Some(2886),
        blitz_games: Some(0),
        blitz_k: Some(10),
        birthday: Some(1990),
        flag: None,
    }
}

#[test]
fn empty_string_becomes_none() {
    assert_eq!(empty_string_to_none(String::new()), None);
    assert_eq!(empty_string_to_none("".to_string()), None);
}

#[test]
fn non_empty_string_is_kept() {
    assert_eq!(empty_string_to_none("GM".to_string()), Some("GM".to_string()));
    assert_eq!(empty_string_to_none(" ".to_string()), Some(" ".to_string()));
}

#[test]
fn players_list_holds_players() {
    let list = PlayersList { players: vec![sample_player()] };
    assert_eq!(list.players.len(), 1);
    assert_eq!(list.players[0].fideid, 1503014);
    assert_eq!(list.players[0].rating, Some(2830));
    assert_eq!(list.players[0].w_title, None);
}
