//! The trusted boundary to the external collaborators: the `shakmaty` rules
//! engine (board representation, legal-move generation, move application,
//! terminal-outcome detection, notation parsing), the random number
//! generator, and the wall clock.
//!
//! Everything here is a declaration of an outside type, a name for what a
//! deterministic outside call returns, or an `external_body` wrapper whose
//! body makes one outside call and converts its arguments and result.
//! Nothing in this module is verified; every contract is checked against the
//! outside crate's source by review.

use vstd::prelude::*;
use shakmaty::Position;
use shakmaty::zobrist::ZobristHash;
use rand::Rng;
use crate::board::{BoardModel, PieceRole};
use crate::moves::MoveInfo;

verus! {

#[verifier::external_type_specification]
#[verifier::external_body]
pub struct ExChess(shakmaty::Chess);

#[verifier::external_type_specification]
#[verifier::external_body]
pub struct ExMove(shakmaty::Move);

#[verifier::external_type_specification]
#[verifier::external_body]
pub struct ExSan(shakmaty::san::San);

#[verifier::external_type_specification]
#[verifier::external_body]
pub struct ExUciMove(shakmaty::uci::UciMove);

#[verifier::external_type_specification]
#[verifier::external_body]
pub struct ExShakmatyRole(shakmaty::Role);

#[verifier::external_type_specification]
#[verifier::external_body]
pub struct ExInstant(std::time::Instant);

/// The terminal state of a position, as the search core reads it. A
/// decisive outcome always means the side to move has been checkmated, so
/// no winner needs to be carried.
#[derive(Clone, Copy, PartialEq, Eq, Structural, Debug)]
pub enum GameOutcome {
    Ongoing,
    Draw,
    Loss,
}

/// The legal moves of a position, in the rules engine's generation order.
pub uninterp spec fn spec_legal_moves(p: shakmaty::Chess) -> Seq<shakmaty::Move>;

/// The position reached by playing a legal move.
pub uninterp spec fn spec_apply(p: shakmaty::Chess, m: shakmaty::Move) -> shakmaty::Chess;

/// The terminal state of a position.
pub uninterp spec fn spec_outcome(p: shakmaty::Chess) -> GameOutcome;

/// The 64-bit Zobrist fingerprint of a position: stable under
/// transposition, it depends only on board, castling rights, legal en
/// passant moves and side to move.
pub uninterp spec fn spec_zobrist(p: shakmaty::Chess) -> u64;

/// Whether White is the side to move.
pub uninterp spec fn spec_turn_white(p: shakmaty::Chess) -> bool;

/// The piece placement of a position, as occupancy sets.
pub uninterp spec fn spec_board(p: shakmaty::Chess) -> BoardModel;

/// The ordering-relevant facts about a move.
pub uninterp spec fn spec_move_info(m: shakmaty::Move) -> MoveInfo;

/// The halfmove clock: moves since the last capture or pawn move.
pub uninterp spec fn spec_halfmoves(p: shakmaty::Chess) -> u32;

/// Whether the king of the side to move is attacked.
pub uninterp spec fn spec_is_check(p: shakmaty::Chess) -> bool;

/// Whether the side to move is checkmated.
pub uninterp spec fn spec_is_checkmate(p: shakmaty::Chess) -> bool;

/// Whether neither side has sufficient material to win.
pub uninterp spec fn spec_is_insufficient(p: shakmaty::Chess) -> bool;

/// The board part of the FEN of a position.
pub uninterp spec fn spec_board_fen(p: shakmaty::Chess) -> Seq<char>;

/// What a UCI string parses to.
pub uninterp spec fn spec_parse_uci(s: Seq<char>) -> Option<shakmaty::uci::UciMove>;

/// The legal move a parsed UCI move resolves to in a position.
pub uninterp spec fn spec_uci_to_move(
    p: shakmaty::Chess,
    u: shakmaty::uci::UciMove,
) -> Option<shakmaty::Move>;

/// What a SAN string parses to.
pub uninterp spec fn spec_parse_san(s: Seq<char>) -> Option<shakmaty::san::San>;

/// The legal move a parsed SAN resolves to in a position.
pub uninterp spec fn spec_san_to_move(
    p: shakmaty::Chess,
    s: shakmaty::san::San,
) -> Option<shakmaty::Move>;

/// The standard starting position's piece placement.
pub open spec fn start_board() -> BoardModel {
    BoardModel {
        white: 0xffff,
        black: 0xffff_0000_0000_0000,
        pawns: 0x00ff_0000_0000_ff00,
        knights: 0x4200_0000_0000_0042,
        bishops: 0x2400_0000_0000_0024,
        rooks: 0x8100_0000_0000_0081,
        queens: 0x0800_0000_0000_0008,
        kings: 0x1000_0000_0000_0010,
    }
}

/// Relies on `Position::legal_moves`: all legal moves of the position,
/// finite and without duplicates.
#[verifier::external_body]
pub fn legal_moves_vec(p: &shakmaty::Chess) -> (r: Vec<shakmaty::Move>)
    ensures
        r@ == spec_legal_moves(*p),
{
    p.legal_moves().to_vec()
}

/// Relies on `Position::play_unchecked` (after a clone): the position
/// reached by playing a legal move; illegal moves would corrupt the state,
/// so they are excluded by contract.
#[verifier::external_body]
pub fn apply_move(p: &shakmaty::Chess, m: &shakmaty::Move) -> (r: shakmaty::Chess)
    requires
        spec_legal_moves(*p).contains(*m),
    ensures
        r == spec_apply(*p, *m),
{
    let mut next = p.clone();
    next.play_unchecked(m);
    next
}

/// Relies on `Position::outcome`: `None` is returned exactly when the game
/// goes on, in which case at least one legal move exists; a decisive
/// outcome in standard chess is a checkmate, a loss for the side to move.
#[verifier::external_body]
pub fn outcome_of(p: &shakmaty::Chess) -> (r: GameOutcome)
    ensures
        r == spec_outcome(*p),
        r == GameOutcome::Ongoing ==> spec_legal_moves(*p).len() > 0,
{
    match p.outcome() {
        None => GameOutcome::Ongoing,
        Some(shakmaty::Outcome::Draw) => GameOutcome::Draw,
        Some(shakmaty::Outcome::Decisive { winner: _ }) => GameOutcome::Loss,
    }
}

/// Relies on `ZobristHash::zobrist_hash` with legal en-passant mode: the
/// position's 64-bit fingerprint.
#[verifier::external_body]
pub fn zobrist_of(p: &shakmaty::Chess) -> (r: u64)
    ensures
        r == spec_zobrist(*p),
{
    p.zobrist_hash::<shakmaty::zobrist::Zobrist64>(shakmaty::EnPassantMode::Legal).0
}

/// Relies on `Position::turn` and `Color::is_white`.
#[verifier::external_body]
pub fn turn_is_white(p: &shakmaty::Chess) -> (r: bool)
    ensures
        r == spec_turn_white(*p),
{
    p.turn().is_white()
}

/// Relies on `Position::board` and the `Board` occupancy accessors
/// (`white`, `black`, `pawns`, `knights`, `bishops`, `rooks`, `queens`,
/// `kings`), each a `Bitboard` wrapping a `u64` with a1 == bit 0.
#[verifier::external_body]
pub fn board_of(p: &shakmaty::Chess) -> (r: BoardModel)
    ensures
        r == spec_board(*p),
{
    let b = p.board();
    BoardModel {
        white: b.white().0,
        black: b.black().0,
        pawns: b.pawns().0,
        knights: b.knights().0,
        bishops: b.bishops().0,
        rooks: b.rooks().0,
        queens: b.queens().0,
        kings: b.kings().0,
    }
}

/// Tells the six variants of `shakmaty::Role` apart, moving nothing else.
#[verifier::external_body]
fn role_from(r: shakmaty::Role) -> PieceRole {
    match r {
        shakmaty::Role::Pawn => PieceRole::Pawn,
        shakmaty::Role::Knight => PieceRole::Knight,
        shakmaty::Role::Bishop => PieceRole::Bishop,
        shakmaty::Role::Rook => PieceRole::Rook,
        shakmaty::Role::Queen => PieceRole::Queen,
        shakmaty::Role::King => PieceRole::King,
    }
}

/// Relies on `Move::role`, `Move::capture` and `Move::is_promotion`.
#[verifier::external_body]
pub fn move_info_of(m: &shakmaty::Move) -> (r: MoveInfo)
    ensures
        r == spec_move_info(*m),
{
    MoveInfo { role: role_from(m.role()), capture: m.capture().map(role_from), promotion: m.is_promotion() }
}

/// Relies on the `Clone` derive of `shakmaty::Move`: a field-for-field
/// copy of the move.
#[verifier::external_body]
pub fn clone_move(m: &shakmaty::Move) -> (r: shakmaty::Move)
    ensures
        r == *m,
{
    m.clone()
}

/// Relies on `Chess::default`: the standard starting position, White to
/// move, full castling rights, empty halfmove clock.
#[verifier::external_body]
pub fn startpos() -> (r: shakmaty::Chess)
    ensures
        spec_outcome(r) == GameOutcome::Ongoing,
        spec_turn_white(r),
        spec_halfmoves(r) == 0,
        spec_board(r) == start_board(),
{
    shakmaty::Chess::default()
}

/// Relies on `Position::halfmoves`.
#[verifier::external_body]
pub fn halfmoves_of(p: &shakmaty::Chess) -> (r: u32)
    ensures
        r == spec_halfmoves(*p),
{
    p.halfmoves()
}

/// Relies on `Position::is_check`.
#[verifier::external_body]
pub fn is_check_of(p: &shakmaty::Chess) -> (r: bool)
    ensures
        r == spec_is_check(*p),
{
    p.is_check()
}

/// Relies on `Position::is_checkmate`.
#[verifier::external_body]
pub fn is_checkmate_of(p: &shakmaty::Chess) -> (r: bool)
    ensures
        r == spec_is_checkmate(*p),
{
    p.is_checkmate()
}

/// Whether the side to move is stalemated.
pub uninterp spec fn spec_is_stalemate(p: shakmaty::Chess) -> bool;

/// Relies on `Position::is_stalemate`.
#[verifier::external_body]
pub fn is_stalemate_of(p: &shakmaty::Chess) -> (r: bool)
    ensures
        r == spec_is_stalemate(*p),
{
    p.is_stalemate()
}

/// Relies on `Position::is_insufficient_material`.
#[verifier::external_body]
pub fn insufficient_material_of(p: &shakmaty::Chess) -> (r: bool)
    ensures
        r == spec_is_insufficient(*p),
{
    p.is_insufficient_material()
}

/// Relies on `Board::board_fen` (without promoted-piece marks) and its
/// `Display`: the board part of the position's FEN.
#[verifier::external_body]
pub fn board_fen_of(p: &shakmaty::Chess) -> (r: String)
    ensures
        r@ == spec_board_fen(*p),
{
    p.board().board_fen(shakmaty::Bitboard::EMPTY).to_string()
}

/// The castling-notation normalization the move parser applies first:
/// every `o` and every `0` becomes `O`, so `0-0` and `o-o` read as `O-O`.
pub open spec fn spec_normalized(s: Seq<char>) -> Seq<char> {
    s.map_values(
        |c: char|
            if c == 'o' || c == '0' {
                'O'
            } else {
                c
            },
    )
}

/// Relies on `str::replace` with one-character patterns: each occurrence
/// of `o` and of `0` replaced by `O`, all other characters kept.
#[verifier::external_body]
pub fn normalize_castling(s: &str) -> (r: String)
    ensures
        r@ == spec_normalized(s@),
{
    s.replace("o", "O").replace("0", "O")
}

/// Relies on `UciMove::from_ascii`: which strings parse as UCI.
#[verifier::external_body]
pub fn parse_uci(s: &str) -> (r: Option<shakmaty::uci::UciMove>)
    ensures
        r == spec_parse_uci(s@),
{
    shakmaty::uci::UciMove::from_ascii(s.as_bytes()).ok()
}

/// Relies on `UciMove::to_move`: `Ok` only for a move drawn from the
/// position's legal moves, `Err` when the UCI move is not legal there.
#[verifier::external_body]
pub fn uci_to_move(p: &shakmaty::Chess, u: &shakmaty::uci::UciMove) -> (r: Option<shakmaty::Move>)
    ensures
        r == spec_uci_to_move(*p, *u),
        r matches Some(m) ==> spec_legal_moves(*p).contains(m),
{
    u.to_move(p).ok()
}

/// Relies on `San::from_ascii`: which strings parse as SAN.
#[verifier::external_body]
pub fn parse_san(s: &str) -> (r: Option<shakmaty::san::San>)
    ensures
        r == spec_parse_san(s@),
{
    shakmaty::san::San::from_ascii(s.as_bytes()).ok()
}

/// Relies on `San::to_move`: `Ok` only for the unique matching move drawn
/// from the position's legal moves, `Err` when none or several match.
#[verifier::external_body]
pub fn san_to_move(p: &shakmaty::Chess, s: &shakmaty::san::San) -> (r: Option<shakmaty::Move>)
    ensures
        r == spec_san_to_move(*p, *s),
        r matches Some(m) ==> spec_legal_moves(*p).contains(m),
{
    s.to_move(p).ok()
}

/// Relies on `rand::random` for `bool`, a fair coin flip; nothing is
/// promised of the outcome.
#[verifier::external_body]
pub fn coin_flip() -> bool {
    rand::random::<bool>()
}

/// Relies on `rand::thread_rng` and `Rng::gen_range`: some index below
/// `n`; nothing more is promised of the outcome.
#[verifier::external_body]
pub fn random_below(n: usize) -> (r: usize)
    requires
        n >= 1,
    ensures
        r < n,
{
    rand::thread_rng().gen_range(0..n)
}

/// Relies on `Instant::now`: a point in time; nothing is promised of it.
#[verifier::external_body]
pub fn clock_now() -> std::time::Instant {
    std::time::Instant::now()
}

/// Relies on `Instant::elapsed` and `Duration::as_millis`: how many whole
/// milliseconds have passed since `start`; nothing is promised of the
/// amount.
#[verifier::external_body]
pub fn millis_since(start: &std::time::Instant) -> u128 {
    start.elapsed().as_millis()
}

} // verus!
