use shakmaty::fen::Fen;
use shakmaty::{CastlingMode, Chess, FromSetup, Position};
use hodgey_chess::search::{find_best_move, find_best_move_uncached, find_best_move_with_time};

fn position(fen: &str) -> Chess {
    let setup = Fen::from_ascii(fen.as_bytes()).expect("Fen should be valid").0;
    Chess::from_setup(setup, CastlingMode::Standard).expect("position should be valid")
}

#[test]
fn lasker_position() {
    let setup = Fen::from_ascii("8/k7/3p4/p2P1p2/P2P1P2/8/8/K7 w - -".as_bytes())
        .expect("Fen should be valid")
        .0;
    let chess = Chess::from_setup(setup, CastlingMode::Standard).expect("position should be valid");
    assert!(find_best_move(&chess, 20).to_string() == "Ka1-b1");
}

#[test]
fn opening_move_is_legal_and_deterministic() {
    let chess = Chess::default();
    let first = find_best_move(&chess, 2);
    let again = find_best_move(&chess, 2);
    assert!(chess.legal_moves().contains(&first));
    assert_eq!(first, again);
}

#[test]
fn mate_in_one_is_found() {
    let chess = position("6k1/8/6K1/8/8/8/8/R7 w - - 0 1");
    let best = find_best_move(&chess, 1);
    let mut after = chess.clone();
    after.play_unchecked(&best);
    assert!(after.is_checkmate());
}

#[test]
fn mate_in_two_is_begun() {
    // Two rooks against the bare king: the ladder mate takes two moves.
    let chess = position("4k3/8/8/8/8/8/1R6/R3K3 w - - 0 1");
    // No move mates at once, so a mate in two is the shortest mate here.
    for first in chess.legal_moves() {
        let mut tried = chess.clone();
        tried.play_unchecked(&first);
        assert!(!tried.is_checkmate());
    }
    let best = find_best_move(&chess, 3);
    let mut after = chess.clone();
    after.play_unchecked(&best);
    // No reply of Black escapes a mate on White's next move.
    for reply in after.legal_moves() {
        let mut answered = after.clone();
        answered.play_unchecked(&reply);
        let mates = answered
            .legal_moves()
            .iter()
            .any(|m| {
                let mut finished = answered.clone();
                finished.play_unchecked(m);
                finished.is_checkmate()
            });
        assert!(mates, "reply {reply} escapes the mate");
    }
}

#[test]
fn undefended_queen_is_taken() {
    let chess = position("k7/8/8/3q4/8/8/8/3Q3K w - - 0 1");
    let best = find_best_move(&chess, 1);
    assert_eq!(best.capture(), Some(shakmaty::Role::Queen));
    let deeper = find_best_move(&chess, 3);
    assert_eq!(deeper.capture(), Some(shakmaty::Role::Queen));
}

#[test]
fn table_reuse_is_transparent_on_scenarios() {
    // The cached search and the table-disabled search pick the same move.
    for (fen, depth) in [
        ("6k1/8/6K1/8/8/8/8/R7 w - - 0 1", 2),
        ("k7/8/8/3q4/8/8/8/3Q3K w - - 0 1", 2),
        ("4k3/8/8/8/8/8/1R6/R3K3 w - - 0 1", 3),
    ] {
        let chess = position(fen);
        let cached = find_best_move(&chess, depth);
        let uncached = find_best_move_uncached(&chess, depth);
        assert_eq!(cached, uncached, "table changed the move on {fen}");
    }
}

#[test]
fn idempotent_across_fresh_tables() {
    let chess = position("k7/8/8/3q4/8/8/8/3Q3K w - - 0 1");
    let first = find_best_move(&chess, 3);
    let second = find_best_move(&chess, 3);
    assert_eq!(first, second);
}

#[test]
fn deadline_search_returns_legal_move() {
    let chess = Chess::default();
    let history: Vec<u64> = Vec::new();
    let best = find_best_move_with_time(&chess, 200, &history);
    assert!(chess.legal_moves().contains(&best));
}
