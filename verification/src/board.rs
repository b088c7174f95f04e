//! The static evaluator's view of a position: piece placement as one 64-bit
//! occupancy set per color and per role, and a pure evaluation over it.
//!
//! The score is material balance plus per-square positional bonuses from the
//! tables in `pst`, from White's perspective; a Black piece is looked up at
//! the vertically mirrored square and subtracted. The color-symmetry law
//! `lemma_evaluate_mirror` states that mirroring a board negates its score.

use vstd::prelude::*;
use crate::pst;
use crate::score::EVAL_LIMIT;

verus! {

/// The role of a piece, as the evaluator and the move orderer read it.
#[derive(Clone, Copy, PartialEq, Eq, Structural, Debug)]
pub enum PieceRole {
    Pawn,
    Knight,
    Bishop,
    Rook,
    Queen,
    King,
}

/// Piece placement: bit `sq` of each set stands for the square numbered
/// `sq`, with a1 == 0, b1 == 1, ..., h8 == 63. A square's color is given by
/// `white`/`black`, its role by the six role sets.
#[derive(Clone, Copy, PartialEq, Eq, Structural, Debug)]
pub struct BoardModel {
    pub white: u64,
    pub black: u64,
    pub pawns: u64,
    pub knights: u64,
    pub bishops: u64,
    pub rooks: u64,
    pub queens: u64,
    pub kings: u64,
}

/// Whether bit `sq` of the occupancy set `bb` is set.
pub open spec fn bit(bb: u64, sq: u64) -> bool {
    (bb >> sq) & 1 == 1
}

/// Table entry for `role` at square `sq`, from White's orientation.
pub open spec fn pst_value(role: PieceRole, sq: u64) -> int {
    match role {
        PieceRole::Pawn => pst::spec_pawn(sq as int) as int,
        PieceRole::Knight => pst::spec_knight(sq as int) as int,
        PieceRole::Bishop => pst::spec_bishop(sq as int) as int,
        PieceRole::Rook => pst::spec_rook(sq as int) as int,
        PieceRole::Queen => pst::spec_queen(sq as int) as int,
        PieceRole::King => pst::spec_king(sq as int) as int,
    }
}

/// Table value contributed at square `sq` by a piece of `role` belonging to
/// the side with occupancy `side`, looked up at square `at` (the square
/// itself for White, the mirrored square for Black).
pub open spec fn role_part(side: u64, pieces: u64, role: PieceRole, sq: u64, at: u64) -> int {
    if bit(side, sq) && bit(pieces, sq) {
        pst_value(role, at)
    } else {
        0
    }
}

/// Sum of the table values at square `sq` over the six roles of one side.
pub open spec fn side_part(b: BoardModel, side: u64, sq: u64, at: u64) -> int {
    role_part(side, b.pawns, PieceRole::Pawn, sq, at)
        + role_part(side, b.knights, PieceRole::Knight, sq, at)
        + role_part(side, b.bishops, PieceRole::Bishop, sq, at)
        + role_part(side, b.rooks, PieceRole::Rook, sq, at)
        + role_part(side, b.queens, PieceRole::Queen, sq, at)
        + role_part(side, b.kings, PieceRole::King, sq, at)
}

/// Signed contribution of square `sq` to the evaluation: White's pieces on
/// `sq` looked up at `sq`, minus Black's pieces on `sq` looked up at the
/// vertically mirrored square `sq ^ 56`.
pub open spec fn contribution(b: BoardModel, sq: u64) -> int {
    side_part(b, b.white, sq, sq) - side_part(b, b.black, sq, sq ^ 56)
}

/// Sum of the contributions of the first `nf` squares of rank `rank`.
pub open spec fn file_sum(b: BoardModel, rank: u64, nf: u64) -> int
    decreases nf,
{
    if nf == 0 {
        0
    } else {
        file_sum(b, rank, (nf - 1) as u64) + contribution(b, (rank * 8 + (nf - 1)) as u64)
    }
}

/// Sum of the contributions of the first `nr` full ranks.
pub open spec fn rank_sum(b: BoardModel, nr: u64) -> int
    decreases nr,
{
    if nr == 0 {
        0
    } else {
        rank_sum(b, (nr - 1) as u64) + file_sum(b, (nr - 1) as u64, 8)
    }
}

/// The unclamped evaluation: the sum over all 64 squares.
pub open spec fn spec_eval_raw(b: BoardModel) -> int {
    rank_sum(b, 8)
}

/// The evaluation from White's perspective, clamped to `EVAL_LIMIT` so that
/// a positional score can never reach the mate sentinels.
pub open spec fn spec_evaluate(b: BoardModel) -> int {
    let raw = spec_eval_raw(b);
    if raw > EVAL_LIMIT as int {
        EVAL_LIMIT as int
    } else if raw < -(EVAL_LIMIT as int) {
        -(EVAL_LIMIT as int)
    } else {
        raw
    }
}

/// The occupancy set with each rank of `x` moved to the vertically mirrored
/// rank (bit `sq` moves to bit `sq ^ 56`).
pub open spec fn spec_vflip(x: u64) -> u64 {
    ((x & 0xff) << 56) | ((x & 0xff00) << 40) | ((x & 0xff0000) << 24) | ((x & 0xff000000) << 8)
        | ((x >> 8) & 0xff000000) | ((x >> 24) & 0xff0000) | ((x >> 40) & 0xff00) | (x >> 56)
}

/// The board with the colors swapped and every occupancy set vertically
/// mirrored: the same position with White and Black exchanged.
pub open spec fn spec_mirror(b: BoardModel) -> BoardModel {
    BoardModel {
        white: spec_vflip(b.black),
        black: spec_vflip(b.white),
        pawns: spec_vflip(b.pawns),
        knights: spec_vflip(b.knights),
        bishops: spec_vflip(b.bishops),
        rooks: spec_vflip(b.rooks),
        queens: spec_vflip(b.queens),
        kings: spec_vflip(b.kings),
    }
}

/// Magnitude bound on one square's contribution, from the element type of
/// the tables alone.
proof fn lemma_contribution_bound(b: BoardModel, sq: u64)
    ensures
        -400000 <= contribution(b, sq) <= 400000,
{
}

/// Magnitude bound on a partial file sum.
proof fn lemma_file_sum_bound(b: BoardModel, rank: u64, nf: u64)
    requires
        nf <= 8,
    ensures
        -400000 * nf <= file_sum(b, rank, nf) <= 400000 * nf,
    decreases nf,
{
    if nf > 0 {
        lemma_file_sum_bound(b, rank, (nf - 1) as u64);
        lemma_contribution_bound(b, (rank * 8 + (nf - 1)) as u64);
    }
}

/// Magnitude bound on a partial rank sum.
proof fn lemma_rank_sum_bound(b: BoardModel, nr: u64)
    requires
        nr <= 8,
    ensures
        -3200000 * nr <= rank_sum(b, nr) <= 3200000 * nr,
    decreases nr,
{
    if nr > 0 {
        lemma_rank_sum_bound(b, (nr - 1) as u64);
        lemma_file_sum_bound(b, (nr - 1) as u64, 8);
    }
}

/// The table values of one side's pieces on square `sq`, looked up at
/// square `at`.
#[verifier::rlimit(50)]
fn side_value(b: &BoardModel, side: u64, sq: u64, at: u64) -> (v: i32)
    requires
        sq < 64,
        at < 64,
    ensures
        v as int == side_part(*b, side, sq, at),
        -200000 <= v <= 200000,
{
    let for_pawn: i32 = if (side >> sq) & 1 == 1 && (b.pawns >> sq) & 1 == 1 {
        pst::pawn_at(at as usize) as i32
    } else {
        0
    };
    assert(for_pawn as int == role_part(side, b.pawns, PieceRole::Pawn, sq, at));
    let for_knight: i32 = if (side >> sq) & 1 == 1 && (b.knights >> sq) & 1 == 1 {
        pst::knight_at(at as usize) as i32
    } else {
        0
    };
    assert(for_knight as int == role_part(side, b.knights, PieceRole::Knight, sq, at));
    let for_bishop: i32 = if (side >> sq) & 1 == 1 && (b.bishops >> sq) & 1 == 1 {
        pst::bishop_at(at as usize) as i32
    } else {
        0
    };
    assert(for_bishop as int == role_part(side, b.bishops, PieceRole::Bishop, sq, at));
    let for_rook: i32 = if (side >> sq) & 1 == 1 && (b.rooks >> sq) & 1 == 1 {
        pst::rook_at(at as usize) as i32
    } else {
        0
    };
    assert(for_rook as int == role_part(side, b.rooks, PieceRole::Rook, sq, at));
    let for_queen: i32 = if (side >> sq) & 1 == 1 && (b.queens >> sq) & 1 == 1 {
        pst::queen_at(at as usize) as i32
    } else {
        0
    };
    assert(for_queen as int == role_part(side, b.queens, PieceRole::Queen, sq, at));
    let for_king: i32 = if (side >> sq) & 1 == 1 && (b.kings >> sq) & 1 == 1 {
        pst::king_at(at as usize) as i32
    } else {
        0
    };
    assert(for_king as int == role_part(side, b.kings, PieceRole::King, sq, at));
    for_pawn + for_knight + for_bishop + for_rook + for_queen + for_king
}

/// The contribution of square `sq`: White's table values at `sq` minus
/// Black's at the mirrored square.
fn square_value(b: &BoardModel, sq: u64) -> (v: i32)
    requires
        sq < 64,
    ensures
        v as int == contribution(*b, sq),
        -400000 <= v <= 400000,
{
    let msq: u64 = sq ^ 56;
    proof {
        assert(msq < 64) by (bit_vector)
            requires
                msq == sq ^ 56,
                sq < 64,
        ;
    }
    let white_part = side_value(b, b.white, sq, sq);
    let black_part = side_value(b, b.black, sq, msq);
    white_part - black_part
}

/// Scores the board from White's perspective: material plus positional
/// bonuses, clamped to `EVAL_LIMIT`.
pub fn evaluate(b: &BoardModel) -> (r: i16)
    ensures
        r as int == spec_evaluate(*b),
{
    let mut total: i32 = 0;
    let mut rank: u64 = 0;
    while rank < 8
        invariant
            rank <= 8,
            total as int == rank_sum(*b, rank),
        decreases 8 - rank,
    {
        let mut file: u64 = 0;
        while file < 8
            invariant
                rank < 8,
                file <= 8,
                total as int == rank_sum(*b, rank) + file_sum(*b, rank, file),
            decreases 8 - file,
        {
            let sq: u64 = rank * 8 + file;
            proof {
                assert(sq < 64) by (bit_vector)
                    requires
                        sq == rank * 8 + file,
                        rank < 8,
                        file < 8,
                ;
            }
            let v = square_value(b, sq);
            proof {
                lemma_rank_sum_bound(*b, rank);
                lemma_file_sum_bound(*b, rank, file);
            }
            total = total + v;
            file = file + 1;
        }
        rank = rank + 1;
    }
    proof {
        lemma_rank_sum_bound(*b, 8);
    }
    if total > EVAL_LIMIT as i32 {
        EVAL_LIMIT
    } else if total < -(EVAL_LIMIT as i32) {
        -EVAL_LIMIT
    } else {
        total as i16
    }
}

/// Vertically mirrors an occupancy set: bit `sq` moves to bit `sq ^ 56`.
pub fn vflip(x: u64) -> (r: u64)
    ensures
        r == spec_vflip(x),
{
    ((x & 0xff) << 56) | ((x & 0xff00) << 40) | ((x & 0xff0000) << 24) | ((x & 0xff000000) << 8)
        | ((x >> 8) & 0xff000000) | ((x >> 24) & 0xff0000) | ((x >> 40) & 0xff00) | (x >> 56)
}

/// Swaps the colors of a board and mirrors every occupancy set vertically.
pub fn mirror_board(b: &BoardModel) -> (r: BoardModel)
    ensures
        r == spec_mirror(*b),
{
    BoardModel {
        white: vflip(b.black),
        black: vflip(b.white),
        pawns: vflip(b.pawns),
        knights: vflip(b.knights),
        bishops: vflip(b.bishops),
        rooks: vflip(b.rooks),
        queens: vflip(b.queens),
        kings: vflip(b.kings),
    }
}

proof fn lemma_vflip_bit(x: u64, sq: u64)
    requires
        sq < 64,
    ensures
        bit(spec_vflip(x), sq) == bit(x, sq ^ 56),
{
    assert((((((x & 0xff) << 56) | ((x & 0xff00) << 40) | ((x & 0xff0000) << 24) | ((x
        & 0xff000000) << 8) | ((x >> 8) & 0xff000000) | ((x >> 24) & 0xff0000) | ((x >> 40)
        & 0xff00) | (x >> 56)) >> sq) & 1) == ((x >> (sq ^ 56)) & 1)) by (bit_vector)
        requires
            sq < 64,
    ;
}

proof fn lemma_flip_indices(r: u64, f: u64)
    requires
        r < 8,
        f < 8,
    ensures
        ((r * 8 + f) as u64) ^ 56 == ((7 - r) * 8 + f) as u64,
        r * 8 + f < 64,
{
    assert((vstd::prelude::add(vstd::prelude::mul(r, 8), f) ^ 56 == vstd::prelude::add(
        vstd::prelude::mul(vstd::prelude::sub(7, r), 8),
        f,
    )) && (vstd::prelude::add(vstd::prelude::mul(r, 8), f) < 64)) by (bit_vector)
        requires
            r < 8,
            f < 8,
    ;
    assert(vstd::prelude::add(vstd::prelude::mul(r, 8), f) == (r * 8 + f) as u64);
    assert(vstd::prelude::add(vstd::prelude::mul(vstd::prelude::sub(7, r), 8), f) == ((7 - r) * 8
        + f) as u64);
}

proof fn lemma_contribution_mirror(b: BoardModel, sq: u64)
    requires
        sq < 64,
    ensures
        contribution(spec_mirror(b), sq) == -contribution(b, sq ^ 56),
{
    assert(sq ^ 56 < 64 && (sq ^ 56) ^ 56 == sq) by (bit_vector)
        requires
            sq < 64,
    ;
    lemma_vflip_bit(b.white, sq);
    lemma_vflip_bit(b.black, sq);
    lemma_vflip_bit(b.pawns, sq);
    lemma_vflip_bit(b.knights, sq);
    lemma_vflip_bit(b.bishops, sq);
    lemma_vflip_bit(b.rooks, sq);
    lemma_vflip_bit(b.queens, sq);
    lemma_vflip_bit(b.kings, sq);
}

proof fn lemma_file_sum_mirror(b: BoardModel, r: u64, nf: u64)
    requires
        r < 8,
        nf <= 8,
    ensures
        file_sum(spec_mirror(b), r, nf) == -file_sum(b, (7 - r) as u64, nf),
    decreases nf,
{
    if nf > 0 {
        lemma_file_sum_mirror(b, r, (nf - 1) as u64);
        lemma_flip_indices(r, (nf - 1) as u64);
        lemma_contribution_mirror(b, (r * 8 + (nf - 1)) as u64);
    }
}

/// Color symmetry of the raw evaluation: mirroring the board negates the
/// sum of all square contributions.
proof fn lemma_eval_raw_mirror(b: BoardModel)
    ensures
        spec_eval_raw(spec_mirror(b)) == -spec_eval_raw(b),
{
    lemma_file_sum_mirror(b, 0, 8);
    lemma_file_sum_mirror(b, 1, 8);
    lemma_file_sum_mirror(b, 2, 8);
    lemma_file_sum_mirror(b, 3, 8);
    lemma_file_sum_mirror(b, 4, 8);
    lemma_file_sum_mirror(b, 5, 8);
    lemma_file_sum_mirror(b, 6, 8);
    lemma_file_sum_mirror(b, 7, 8);
    assert(rank_sum(spec_mirror(b), 8) == -rank_sum(b, 8)) by {
        reveal_with_fuel(rank_sum, 9);
    };
}

/// Color symmetry: evaluating the mirrored board (colors swapped, every
/// occupancy set vertically flipped) gives the negation of evaluating the
/// board itself.
pub proof fn lemma_evaluate_mirror(b: BoardModel)
    ensures
        spec_evaluate(spec_mirror(b)) == -spec_evaluate(b),
{
    lemma_eval_raw_mirror(b);
}

} // verus!
