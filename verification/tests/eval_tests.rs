use hodgey_chess::board::{evaluate, mirror_board, BoardModel};
use hodgey_chess::moves::{move_score, MoveInfo};
use hodgey_chess::board::PieceRole;
use shakmaty::fen::Fen;
use shakmaty::{CastlingMode, Chess, FromSetup, Position};

fn model_of(chess: &Chess) -> BoardModel {
    let b = chess.board();
    BoardModel {
        white: b.white().0,
        black: b.black().0,
        pawns: b.pawns().0,
        knights: b.knights().0,
        bishops: b.bishops().0,
        rooks: b.rooks().0,
        queens: b.queens().0,
        kings: b.kings().0,
    }
}

fn model_from_fen(fen: &str) -> BoardModel {
    let setup = Fen::from_ascii(fen.as_bytes()).expect("Fen should be valid").0;
    let chess = Chess::from_setup(setup, CastlingMode::Standard).expect("position should be valid");
    model_of(&chess)
}

#[test]
fn start_position_is_balanced() {
    let b = model_of(&Chess::default());
    assert_eq!(evaluate(&b), 0);
}

#[test]
fn missing_black_pawn_counts_for_white() {
    // The standard start without Black's a-pawn: White is up exactly the
    // a2-entry of the pawn table, 100 material plus the 5 bonus.
    let b = model_from_fen("rnbqkbnr/1ppppppp/8/8/8/8/PPPPPPPP/RNBQKBNR w KQkq - 0 1");
    assert_eq!(evaluate(&b), 105);
}

#[test]
fn mirror_negates_evaluation() {
    for fen in [
        "rnbqkbnr/1ppppppp/8/8/8/8/PPPPPPPP/RNBQKBNR w KQkq - 0 1",
        "2rq1bk1/1b4pp/pn3n2/1p1Ppp2/1PP1P3/7P/3N1PP1/R2QRBK1 w - - 0 23",
        "8/k7/3p4/p2P1p2/P2P1P2/8/8/K7 w - -",
        "k7/8/8/3q4/8/8/8/3Q3K w - - 0 1",
    ] {
        let b = model_from_fen(fen);
        let m = mirror_board(&b);
        assert_eq!(evaluate(&m), -evaluate(&b), "mirror asymmetry on {fen}");
    }
}

#[test]
fn quiet_moves_score_zero() {
    let quiet = MoveInfo { role: PieceRole::Knight, capture: None, promotion: false };
    assert_eq!(move_score(&quiet), 0);
}

#[test]
fn captures_and_promotions_sort_before_quiet_moves() {
    let pawn_takes_queen = MoveInfo {
        role: PieceRole::Pawn,
        capture: Some(PieceRole::Queen),
        promotion: false,
    };
    assert_eq!(move_score(&pawn_takes_queen), 1 - 90);
    let queen_takes_pawn = MoveInfo {
        role: PieceRole::Queen,
        capture: Some(PieceRole::Pawn),
        promotion: false,
    };
    assert_eq!(move_score(&queen_takes_pawn), 9 - 10);
    let promotion = MoveInfo { role: PieceRole::Pawn, capture: None, promotion: true };
    assert_eq!(move_score(&promotion), -60);
    let promoting_capture = MoveInfo {
        role: PieceRole::Pawn,
        capture: Some(PieceRole::Rook),
        promotion: true,
    };
    assert_eq!(move_score(&promoting_capture), -60 + 1 - 50);
    // The good captures come before the poor ones, all before quiet moves.
    assert!(move_score(&pawn_takes_queen) < move_score(&queen_takes_pawn));
    assert!(move_score(&queen_takes_pawn) < 0);
}
