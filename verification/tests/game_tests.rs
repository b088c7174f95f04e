use hodgey_chess::game::{ChessGame, GameStatus, MoveError};
use shakmaty::fen::Fen;
use shakmaty::{CastlingMode, Chess, FromSetup, Position};

fn game_at(fen: &str) -> ChessGame {
    let setup = Fen::from_ascii(fen.as_bytes()).expect("Fen should be valid").0;
    let chess = Chess::from_setup(setup, CastlingMode::Standard).expect("position should be valid");
    ChessGame {
        white_id: 1,
        black_id: 2,
        chess,
        show_coordinates: true,
        board_flips: false,
        previously_seen_hashes: Vec::new(),
    }
}

fn fresh_game() -> ChessGame {
    ChessGame {
        white_id: 1,
        black_id: 2,
        chess: Chess::default(),
        show_coordinates: true,
        board_flips: false,
        previously_seen_hashes: Vec::new(),
    }
}

#[test]
fn random_sides_assigns_both_players() {
    let game = ChessGame::new_game_random_sides(7, 9);
    assert!(game.has_user(7));
    assert!(game.has_user(9));
    assert!(!game.has_user(8));
    assert!(
        (game.white_id == 7 && game.black_id == 9) || (game.white_id == 9 && game.black_id == 7)
    );
    assert!(game.show_coordinates);
    assert!(!game.board_flips);
    assert_eq!(game.id_to_move(), game.white_id);
}

#[test]
fn moves_parse_in_both_notations() {
    let mut game = fresh_game();
    let uci = game.legal_move_from_string("e2e4".to_string()).expect("uci should parse");
    let san = game.legal_move_from_string("e4".to_string()).expect("san should parse");
    assert_eq!(uci, san);
    assert!(game.make_move_from_str("e2e4").is_ok());
    assert_eq!(game.id_to_move(), game.black_id);
    assert_eq!(game.previously_seen_hashes.len(), 1);
}

#[test]
fn castling_accepts_zeros_and_lowercase() {
    // White is ready to castle kingside.
    let game = game_at("rnbqkbnr/pppppppp/8/8/8/5NPB/PPPPPP1P/RNBQK2R w KQkq - 0 1");
    let with_zeros = game.legal_move_from_string("0-0".to_string()).expect("0-0 should parse");
    let lowercase = game.legal_move_from_string("o-o".to_string()).expect("o-o should parse");
    assert_eq!(with_zeros, lowercase);
    assert!(with_zeros.is_castle());
}

#[test]
fn bad_strings_are_rejected() {
    let game = fresh_game();
    assert_eq!(game.legal_move_from_string("pineapple".to_string()), Err(MoveError::InvalidMove));
    assert_eq!(game.legal_move_from_string("e2e5".to_string()), Err(MoveError::IllegalMove));
    assert_eq!(game.legal_move_from_string("Qh5".to_string()), Err(MoveError::IllegalMove));
}

#[test]
fn rejected_moves_leave_the_game_alone() {
    let mut game = fresh_game();
    assert_eq!(game.make_move_from_str("e2e5"), Err(MoveError::IllegalMove));
    assert_eq!(game.previously_seen_hashes.len(), 0);
    assert_eq!(game.id_to_move(), game.white_id);
}

#[test]
fn check_and_checkmate_are_reported() {
    let fools_mate = game_at("rnb1kbnr/pppp1ppp/8/4p3/6Pq/5P2/PPPPP2P/RNBQKBNR w KQkq - 1 3");
    assert!(fools_mate.is_in_check());
    assert!(fools_mate.gameover());
    assert_eq!(fools_mate.status(), GameStatus::Checkmate);
    assert_eq!(fools_mate.get_gameover_message(), "Checkmate!");

    let stalemate = game_at("7k/5Q2/6K1/8/8/8/8/8 b - - 0 1");
    assert!(!stalemate.is_in_check());
    assert!(stalemate.gameover());
    assert_eq!(stalemate.status(), GameStatus::Stalemate);
    assert_eq!(stalemate.get_gameover_message(), "Stalemate!");

    let bare_kings = game_at("8/8/8/4k3/8/8/8/4K3 w - - 0 1");
    assert!(bare_kings.gameover());
    assert_eq!(bare_kings.get_gameover_message(), "Stalemate! Insufficient material.");

    let ongoing = fresh_game();
    assert!(!ongoing.gameover());
    assert_eq!(ongoing.status(), GameStatus::Ongoing);
}

#[test]
fn link_carries_fen_and_options() {
    let mut game = fresh_game();
    assert_eq!(
        game.to_link(),
        "https://www.chess.com/dynboard?fen=rnbqkbnr/pppppppp/8/8/8/8/PPPPPPPP/RNBQKBNR&board=bases&piece=classic&size=3&coordinates=1"
    );
    game.show_coordinates = false;
    game.board_flips = true;
    game.make_move_from_str("e2e4").expect("e4 should be playable");
    assert_eq!(
        game.to_link(),
        "https://www.chess.com/dynboard?fen=rnbqkbnr/pppppppp/8/8/4P3/8/PPPP1PPP/RNBQKBNR&board=bases&piece=classic&size=3&flip=1"
    );
}

#[test]
fn engine_move_is_legal_for_the_game() {
    let mut game = fresh_game();
    let best = game.find_best_move();
    assert!(game.chess.legal_moves().contains(&best));
    game.make_move_unchecked(best);
    assert_eq!(game.previously_seen_hashes.len(), 1);
}

#[test]
fn random_move_is_legal() {
    let game = fresh_game();
    let m = game.generate_hodgey_move().expect("the start position has moves");
    assert!(game.chess.legal_moves().contains(&m));
    let finished = game_at("7k/5Q2/6K1/8/8/8/8/8 b - - 0 1");
    assert!(finished.generate_hodgey_move().is_none());
}
