//! One chess game between two users: the position, whose turn it is, the
//! fingerprints of every position seen so far, and the engine hooked up to
//! it. The hosting chat layer keeps a list of these; `ChessGames` is its
//! marker type for that list.

use vstd::prelude::*;
use vstd::string::StringExecFns;
use crate::rules::{
    GameOutcome, spec_legal_moves, spec_apply, spec_outcome, spec_zobrist, spec_turn_white,
    spec_board, spec_halfmoves, spec_is_check, spec_is_checkmate, spec_is_stalemate,
    spec_is_insufficient, spec_board_fen, spec_parse_uci, spec_uci_to_move, spec_parse_san,
    spec_san_to_move, spec_normalized, start_board, apply_move, outcome_of, zobrist_of,
    turn_is_white, halfmoves_of, is_check_of, is_checkmate_of, is_stalemate_of,
    insufficient_material_of, board_fen_of, normalize_castling, parse_uci, parse_san,
    uci_to_move, san_to_move, startpos, coin_flip, random_below, legal_moves_vec, clone_move,
};
use crate::search;

verus! {

/// Marker type under which the hosting layer files its list of running
/// games.
pub struct ChessGames;

/// Why a move string was turned down: it is not a move at all, or it
/// names no legal move in the current position.
#[derive(Clone, Copy, PartialEq, Eq, Structural, Debug)]
pub enum MoveError {
    InvalidMove,
    IllegalMove,
}

/// How a finished-or-not game stands for the side to move.
#[derive(Clone, Copy, PartialEq, Eq, Structural, Debug)]
pub enum GameStatus {
    Ongoing,
    Stalemate,
    Checkmate,
}

/// A game between the users `white_id` and `black_id`.
pub struct ChessGame {
    pub white_id: u64,
    pub black_id: u64,
    pub chess: shakmaty::Chess,
    pub show_coordinates: bool,
    pub board_flips: bool,
    pub previously_seen_hashes: Vec<u64>,
}

/// What parsing a move string yields: the unique legal move it names, or
/// the error saying why there is none. UCI notation is tried first; what
/// does not parse as UCI is read as SAN; castling may be written with `o`
/// or `0`.
pub open spec fn spec_move_from_string(
    p: shakmaty::Chess,
    s: Seq<char>,
) -> Result<shakmaty::Move, MoveError> {
    let n = spec_normalized(s);
    match spec_parse_uci(n) {
        Some(u) => match spec_uci_to_move(p, u) {
            Some(m) => Ok(m),
            None => Err(MoveError::IllegalMove),
        },
        None => match spec_parse_san(n) {
            Some(sa) => match spec_san_to_move(p, sa) {
                Some(m) => Ok(m),
                None => Err(MoveError::IllegalMove),
            },
            None => Err(MoveError::InvalidMove),
        },
    }
}

/// The board-viewer link: the position's FEN and the display options.
pub open spec fn spec_link(fen: Seq<char>, coordinates: bool, flipped: bool) -> Seq<char> {
    "https://www.chess.com/dynboard?fen="@ + fen + "&board=bases&piece=classic&size=3"@ + (
    if coordinates {
        "&coordinates=1"@
    } else {
        Seq::<char>::empty()
    }) + (if flipped {
        "&flip=1"@
    } else {
        Seq::<char>::empty()
    })
}

impl ChessGame {
    /// The current position.
    pub open spec fn spec_position(self) -> shakmaty::Chess {
        self.chess
    }

    /// The fingerprints of the positions reached so far, oldest first.
    pub open spec fn spec_history(self) -> Seq<u64> {
        self.previously_seen_hashes@
    }

    /// Starts a game of the two players from the standard starting
    /// position, each equally likely to get White.
    pub fn new_game_random_sides(player1_id: u64, player2_id: u64) -> (r: ChessGame)
        ensures
            (r.white_id == player1_id && r.black_id == player2_id) || (r.white_id == player2_id
                && r.black_id == player1_id),
            r.show_coordinates == true,
            r.board_flips == false,
            r.spec_history() == Seq::<u64>::empty(),
            spec_outcome(r.spec_position()) == GameOutcome::Ongoing,
            spec_turn_white(r.spec_position()),
            spec_board(r.spec_position()) == start_board(),
            spec_halfmoves(r.spec_position()) == 0,
    {
        if coin_flip() {
            ChessGame {
                white_id: player1_id,
                black_id: player2_id,
                chess: startpos(),
                show_coordinates: true,
                board_flips: false,
                previously_seen_hashes: Vec::new(),
            }
        } else {
            ChessGame {
                white_id: player2_id,
                black_id: player1_id,
                chess: startpos(),
                show_coordinates: true,
                board_flips: false,
                previously_seen_hashes: Vec::new(),
            }
        }
    }

    /// Whether `id` plays in this game.
    pub fn has_user(&self, id: u64) -> (r: bool)
        ensures
            r == (self.white_id == id || self.black_id == id),
    {
        self.white_id == id || self.black_id == id
    }

    /// The user whose turn it is.
    pub fn id_to_move(&self) -> (r: u64)
        ensures
            r == if spec_turn_white(self.spec_position()) {
                self.white_id
            } else {
                self.black_id
            },
    {
        if turn_is_white(&self.chess) {
            self.white_id
        } else {
            self.black_id
        }
    }

    /// Plays a move the caller already knows to be legal, and records the
    /// new position's fingerprint in the history.
    pub fn make_move_unchecked(&mut self, selected_move: shakmaty::Move)
        requires
            spec_legal_moves(old(self).spec_position()).contains(selected_move),
        ensures
            final(self).spec_position() == spec_apply(old(self).spec_position(), selected_move),
            final(self).spec_history() == old(self).spec_history().push(
                spec_zobrist(final(self).spec_position()),
            ),
            final(self).white_id == old(self).white_id,
            final(self).black_id == old(self).black_id,
            final(self).show_coordinates == old(self).show_coordinates,
            final(self).board_flips == old(self).board_flips,
    {
        let next = apply_move(&self.chess, &selected_move);
        self.chess = next;
        let new_hash = zobrist_of(&self.chess);
        self.previously_seen_hashes.push(new_hash);
    }

    /// Plays a legal move; the name `make_move_unchecked` says the same
    /// of the position alone.
    pub fn make_move(&mut self, selected_move: shakmaty::Move)
        requires
            spec_legal_moves(old(self).spec_position()).contains(selected_move),
        ensures
            final(self).spec_position() == spec_apply(old(self).spec_position(), selected_move),
            final(self).spec_history() == old(self).spec_history().push(
                spec_zobrist(final(self).spec_position()),
            ),
            final(self).white_id == old(self).white_id,
            final(self).black_id == old(self).black_id,
            final(self).show_coordinates == old(self).show_coordinates,
            final(self).board_flips == old(self).board_flips,
    {
        self.make_move_unchecked(selected_move);
    }

    /// Reads a move string in UCI or SAN notation (castling also with `o`
    /// or `0`) and resolves it against the current position. `Ok` holds a
    /// legal move; `InvalidMove` means the string parses as neither
    /// notation, `IllegalMove` that it names no legal move here.
    pub fn legal_move_from_string(&self, move_string: String) -> (r: Result<
        shakmaty::Move,
        MoveError,
    >)
        ensures
            r == spec_move_from_string(self.spec_position(), move_string@),
            r matches Ok(m) ==> spec_legal_moves(self.spec_position()).contains(m),
    {
        let normalized = normalize_castling(move_string.as_str());
        if let Some(u) = parse_uci(normalized.as_str()) {
            match uci_to_move(&self.chess, &u) {
                Some(m) => Ok(m),
                None => Err(MoveError::IllegalMove),
            }
        } else {
            match parse_san(normalized.as_str()) {
                Some(sa) => match san_to_move(&self.chess, &sa) {
                    Some(m) => Ok(m),
                    None => Err(MoveError::IllegalMove),
                },
                None => Err(MoveError::InvalidMove),
            }
        }
    }

    /// Reads a move string and, when it names a legal move, plays it.
    /// The game is unchanged when the string is turned down.
    pub fn make_move_from_str(&mut self, move_str: &str) -> (r: Result<(), MoveError>)
        ensures
            r matches Err(e) ==> *final(self) == *old(self) && spec_move_from_string(
                old(self).spec_position(),
                move_str@,
            ) == Err::<shakmaty::Move, MoveError>(e),
            r is Ok ==> (spec_move_from_string(old(self).spec_position(), move_str@) matches Ok(m)
                && final(self).spec_position() == spec_apply(old(self).spec_position(), m)
                && final(self).spec_history() == old(self).spec_history().push(
                spec_zobrist(final(self).spec_position()),
            )),
    {
        let owned = move_str.to_owned();
        match self.legal_move_from_string(owned) {
            Ok(selected_move) => {
                self.make_move_unchecked(selected_move);
                Ok(())
            },
            Err(e) => Err(e),
        }
    }

    /// Asks the engine for the side to move's best move, under the fixed
    /// one-second budget, counting positions already in the history as
    /// draws. The position must not be terminal.
    pub fn find_best_move(&mut self) -> (r: shakmaty::Move)
        requires
            spec_outcome(old(self).spec_position()) == GameOutcome::Ongoing,
        ensures
            *final(self) == *old(self),
            spec_legal_moves(old(self).spec_position()).contains(r),
    {
        search::find_best_move_with_time(&self.chess, 1000, &self.previously_seen_hashes)
    }

    /// Picks a uniformly random legal move, `None` on a position without
    /// one.
    pub fn generate_hodgey_move(&self) -> (r: Option<shakmaty::Move>)
        ensures
            r is Some <==> spec_legal_moves(self.spec_position()).len() > 0,
            r matches Some(m) ==> spec_legal_moves(self.spec_position()).contains(m),
    {
        let moves = legal_moves_vec(&self.chess);
        if moves.len() == 0 {
            None
        } else {
            let i = random_below(moves.len());
            Some(clone_move(&moves[i]))
        }
    }

    /// Whether the side to move stands in check.
    pub fn is_in_check(&self) -> (r: bool)
        ensures
            r == spec_is_check(self.spec_position()),
    {
        is_check_of(&self.chess)
    }

    /// The board-viewer link showing the current position with this
    /// game's display options.
    pub fn to_link(&self) -> (r: String)
        ensures
            r@ == spec_link(
                spec_board_fen(self.spec_position()),
                self.show_coordinates,
                self.board_flips && !spec_turn_white(self.spec_position()),
            ),
    {
        let fen = board_fen_of(&self.chess);
        let mut result = String::from_str("https://www.chess.com/dynboard?fen=");
        result.append(fen.as_str());
        result.append("&board=bases&piece=classic&size=3");
        if self.show_coordinates {
            result.append("&coordinates=1");
        }
        if self.board_flips && !turn_is_white(&self.chess) {
            result.append("&flip=1");
        }
        proof {
            assert(result@ =~= spec_link(
                spec_board_fen(self.spec_position()),
                self.show_coordinates,
                self.board_flips && !spec_turn_white(self.spec_position()),
            ));
        }
        result
    }

    /// Whether the game is over: a terminal position, or the halfmove
    /// clock past the fifty-move mark.
    pub fn gameover(&self) -> (r: bool)
        ensures
            r == (spec_outcome(self.spec_position()) != GameOutcome::Ongoing || spec_halfmoves(
                self.spec_position(),
            ) > 100),
    {
        let oc = outcome_of(&self.chess);
        !matches!(oc, GameOutcome::Ongoing) || halfmoves_of(&self.chess) > 100
    }

    /// The message announcing how the game ended, assuming it has.
    pub fn get_gameover_message(&self) -> (r: &'static str)
        ensures
            spec_is_checkmate(self.spec_position()) ==> r@ == "Checkmate!"@,
            !spec_is_checkmate(self.spec_position()) && spec_is_insufficient(self.spec_position())
                ==> r@ == "Stalemate! Insufficient material."@,
            !spec_is_checkmate(self.spec_position()) && !spec_is_insufficient(
                self.spec_position(),
            ) && spec_halfmoves(self.spec_position()) > 100 ==> r@ == "Draw by 50 move rule!"@,
            !spec_is_checkmate(self.spec_position()) && !spec_is_insufficient(
                self.spec_position(),
            ) && spec_halfmoves(self.spec_position()) <= 100 ==> r@ == "Stalemate!"@,
    {
        if is_checkmate_of(&self.chess) {
            "Checkmate!"
        } else if insufficient_material_of(&self.chess) {
            "Stalemate! Insufficient material."
        } else if halfmoves_of(&self.chess) > 100 {
            "Draw by 50 move rule!"
        } else {
            "Stalemate!"
        }
    }

    /// How the game stands: checkmate, stalemate, or still on.
    pub fn status(&self) -> (r: GameStatus)
        ensures
            r == GameStatus::Checkmate <==> spec_is_checkmate(self.spec_position()),
            !spec_is_checkmate(self.spec_position()) ==> (r == GameStatus::Stalemate
                <==> spec_is_stalemate(self.spec_position())),
            r == GameStatus::Ongoing <==> (!spec_is_checkmate(self.spec_position())
                && !spec_is_stalemate(self.spec_position())),
    {
        if is_checkmate_of(&self.chess) {
            GameStatus::Checkmate
        } else if is_stalemate_of(&self.chess) {
            GameStatus::Stalemate
        } else {
            GameStatus::Ongoing
        }
    }
}

} // verus!
