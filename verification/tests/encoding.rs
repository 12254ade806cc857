use chess_store::{decode_move, decode_moves, encode_move, Error};
use shakmaty::{Chess, Move, Position, Role, Square};

fn normal(role: Role, from: Square, to: Square) -> Move {
    Move::Normal { role, from, capture: None, to, promotion: None }
}

fn capture(role: Role, from: Square, to: Square, captured: Role) -> Move {
    Move::Normal { role, from, capture: Some(captured), to, promotion: None }
}

#[test]
fn test_encoding() {
    let mut chess = Chess::default();
    let m = Move::Normal {
        role: Role::Pawn,
        from: Square::E2,
        to: Square::E4,
        capture: None,
        promotion: None,
    };

    let byte = encode_move(&m, &chess).unwrap();
    let m2 = decode_move(byte, &chess).unwrap();
    assert_eq!(m, m2);

    chess.play_unchecked(&m);

    let m = Move::Normal {
        role: Role::Pawn,
        from: Square::E7,
        to: Square::E5,
        capture: None,
        promotion: None,
    };
    let byte = encode_move(&m, &chess).unwrap();
    let m2 = decode_move(byte, &chess).unwrap();
    assert_eq!(m, m2);
}

#[test]
fn initial_position_e2e4_round_trip() {
    let chess = Chess::default();
    let m = normal(Role::Pawn, Square::E2, Square::E4);

    let byte = encode_move(&m, &chess).unwrap();
    let again = encode_move(&m, &chess).unwrap();
    assert_eq!(byte, again);
    assert_eq!(decode_move(byte, &chess), Some(m));
}

#[test]
fn four_ply_sequence_decodes_to_san() {
    let mut chess = Chess::default();
    let plies = vec![
        normal(Role::Pawn, Square::E2, Square::E4),
        normal(Role::Pawn, Square::E7, Square::E5),
        normal(Role::Knight, Square::G1, Square::F3),
        normal(Role::Knight, Square::B8, Square::C6),
    ];
    let mut bytes = Vec::new();
    for m in &plies {
        bytes.push(encode_move(m, &chess).unwrap());
        chess.play_unchecked(m);
    }

    assert_eq!(decode_moves(bytes).unwrap(), "e4 e5 Nf3 Nc6");
}

#[test]
fn sequence_decode_is_deterministic() {
    let mut chess = Chess::default();
    let plies = vec![
        normal(Role::Pawn, Square::D2, Square::D4),
        normal(Role::Pawn, Square::D7, Square::D5),
        normal(Role::Pawn, Square::C2, Square::C4),
        capture(Role::Pawn, Square::D5, Square::C4, Role::Pawn),
    ];
    let mut bytes = Vec::new();
    for m in &plies {
        bytes.push(encode_move(m, &chess).unwrap());
        chess.play_unchecked(m);
    }

    let first = decode_moves(bytes.clone()).unwrap();
    let second = decode_moves(bytes).unwrap();
    assert_eq!(first, second);
    assert_eq!(first, "d4 d5 c4 dxc4");
}

#[test]
fn empty_sequence_decodes_to_empty_string() {
    assert_eq!(decode_moves(Vec::new()).unwrap(), "");
}

#[test]
fn out_of_range_byte_decodes_to_none() {
    let chess = Chess::default();
    let count = chess.legal_moves().len() as u16;
    assert_eq!(count, 20);
    for byte in count..=255 {
        assert_eq!(decode_move(byte as u8, &chess), None);
    }
}

#[test]
fn zero_legal_moves_decodes_to_none() {
    // Fool's mate: after 1. f3 e5 2. g4 Qh4# the side to move is checkmated
    // and has no legal move at all.
    let mut chess = Chess::default();
    for m in [
        normal(Role::Pawn, Square::F2, Square::F3),
        normal(Role::Pawn, Square::E7, Square::E5),
        normal(Role::Pawn, Square::G2, Square::G4),
        normal(Role::Queen, Square::D8, Square::H4),
    ] {
        chess.play_unchecked(&m);
    }
    assert!(chess.is_checkmate());
    assert_eq!(chess.legal_moves().len(), 0);
    for byte in [0u8, 1, 128, 255] {
        assert_eq!(decode_move(byte, &chess), None);
    }
}

#[test]
fn illegal_move_is_rejected() {
    let chess = Chess::default();
    // A pawn cannot jump three ranks.
    let m = normal(Role::Pawn, Square::E2, Square::E5);
    assert_eq!(encode_move(&m, &chess), Err(Error::InvalidMove));
}

#[test]
fn corrupt_byte_reports_its_ply() {
    let chess = Chess::default();
    let e4 = encode_move(&normal(Role::Pawn, Square::E2, Square::E4), &chess).unwrap();

    assert_eq!(decode_moves(vec![255]), Err(Error::CorruptGameData(0)));
    assert_eq!(decode_moves(vec![e4, 250]), Err(Error::CorruptGameData(1)));
}
