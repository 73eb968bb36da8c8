use chess_mate::rules::{
    is_checkmate, parse_position, resolve_and_apply, white_to_move, Position, RulesFault,
};

const START: &str = "rnbqkbnr/pppppppp/8/8/8/8/PPPPPPPP/RNBQKBNR w KQkq - 0 1";
const SCHOLAR: &str = "r1bqkbnr/pppp1ppp/2n5/4p2Q/2B1P3/8/PPPP1PPP/RNB1K1NR b KQkq - 4 4";

fn play_all(fen: &str, moves: &[&str]) -> Result<Position, RulesFault> {
    let mut pos = parse_position(fen)?;
    for m in moves {
        pos = resolve_and_apply(&pos, m)?;
    }
    Ok(pos)
}

#[test]
fn start_position_has_white_to_move() {
    let pos = parse_position(START).unwrap();
    assert!(white_to_move(&pos));
    assert!(!is_checkmate(&pos));
}

#[test]
fn a_move_passes_the_turn() {
    let pos = play_all(START, &["e4"]).unwrap();
    assert!(!white_to_move(&pos));
    let pos = resolve_and_apply(&pos, "e5").unwrap();
    assert!(white_to_move(&pos));
}

#[test]
fn malformed_fen_is_refused() {
    assert_eq!(parse_position("not a position").err(), Some(RulesFault::MalformedPosition));
    assert_eq!(parse_position("").err(), Some(RulesFault::MalformedPosition));
    // two white kings
    assert_eq!(
        parse_position("4k3/8/8/8/8/8/8/K3K3 w - - 0 1").err(),
        Some(RulesFault::MalformedPosition)
    );
}

#[test]
fn unparsable_move_is_illegal() {
    let pos = parse_position(START).unwrap();
    assert_eq!(resolve_and_apply(&pos, "hello").err(), Some(RulesFault::IllegalMove));
    assert_eq!(resolve_and_apply(&pos, "e5").err(), Some(RulesFault::IllegalMove));
}

#[test]
fn self_check_is_illegal() {
    // the bishop on e2 is pinned by the rook on e8
    let pos = parse_position("4r1k1/8/8/8/8/8/4B3/4K3 w - - 0 1").unwrap();
    assert_eq!(resolve_and_apply(&pos, "Bd3").err(), Some(RulesFault::IllegalMove));
    assert!(resolve_and_apply(&pos, "Kd2").is_ok());
}

#[test]
fn ambiguous_move_needs_qualifier() {
    let fen = "4k3/8/8/8/8/8/8/N1N1K3 w - - 0 1";
    let pos = parse_position(fen).unwrap();
    assert_eq!(resolve_and_apply(&pos, "Nb3").err(), Some(RulesFault::IllegalMove));
    assert!(resolve_and_apply(&pos, "Nab3").is_ok());
    assert!(resolve_and_apply(&pos, "Ncb3").is_ok());
}

#[test]
fn scholar_line_ends_in_checkmate() {
    let pos = play_all(SCHOLAR, &["Nf6", "Qxf7"]).unwrap();
    assert!(is_checkmate(&pos));
    assert!(!white_to_move(&pos));
}

#[test]
fn stalemate_is_not_checkmate() {
    let pos = parse_position("7k/5Q2/6K1/8/8/8/8/8 b - - 0 1").unwrap();
    assert!(!is_checkmate(&pos));
}

#[test]
fn no_move_after_checkmate() {
    assert_eq!(
        play_all(SCHOLAR, &["Nf6", "Qxf7", "Kd8"]).err(),
        Some(RulesFault::IllegalMove)
    );
}
