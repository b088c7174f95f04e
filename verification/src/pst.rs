//! Piece-square tables: one 64-entry table per role, holding the material
//! value of the role plus a per-square positional bonus, tuned for White's
//! orientation. A Black piece is looked up at the vertically mirrored square
//! (index `sq ^ 56`) and its value subtracted.

use vstd::prelude::*;

verus! {

/// Pawn table: material value 100 plus the positional bonus, indexed from
/// White's side with a1 == 0.
const PAWN: [i16; 64] = [
    100, 100, 100, 100, 100, 100, 100, 100,
    105, 110, 110, 80, 80, 110, 110, 105,
    105, 95, 90, 100, 100, 90, 95, 105,
    100, 100, 100, 120, 120, 100, 100, 100,
    105, 105, 110, 125, 125, 110, 105, 105,
    110, 110, 120, 130, 130, 120, 110, 110,
    150, 150, 150, 150, 150, 150, 150, 150,
    100, 100, 100, 100, 100, 100, 100, 100,
];

/// Knight table: material value 320 plus the positional bonus.
const KNIGHT: [i16; 64] = [
    270, 280, 290, 290, 290, 290, 280, 270,
    280, 300, 320, 325, 325, 320, 300, 280,
    290, 325, 330, 335, 335, 330, 325, 290,
    290, 320, 335, 340, 340, 335, 320, 290,
    290, 325, 335, 340, 340, 335, 325, 290,
    290, 320, 330, 335, 335, 330, 320, 290,
    280, 300, 320, 320, 320, 320, 300, 280,
    270, 280, 290, 290, 290, 290, 280, 270,
];

/// Bishop table: material value 330 plus the positional bonus.
const BISHOP: [i16; 64] = [
    310, 320, 320, 320, 320, 320, 320, 310,
    320, 335, 330, 330, 330, 330, 335, 320,
    320, 340, 340, 340, 340, 340, 340, 320,
    320, 330, 340, 340, 340, 340, 330, 320,
    320, 335, 335, 340, 340, 335, 335, 320,
    320, 330, 335, 340, 340, 335, 330, 320,
    320, 330, 330, 330, 330, 330, 330, 320,
    310, 320, 320, 320, 320, 320, 320, 310,
];

/// Rook table: material value 500 plus the positional bonus.
const ROOK: [i16; 64] = [
    500, 500, 500, 505, 505, 500, 500, 500,
    495, 500, 500, 500, 500, 500, 500, 495,
    495, 500, 500, 500, 500, 500, 500, 495,
    495, 500, 500, 500, 500, 500, 500, 495,
    495, 500, 500, 500, 500, 500, 500, 495,
    495, 500, 500, 500, 500, 500, 500, 495,
    505, 510, 510, 510, 510, 510, 510, 505,
    500, 500, 500, 500, 500, 500, 500, 500,
];

/// Queen table: material value 900 plus the positional bonus.
const QUEEN: [i16; 64] = [
    880, 890, 890, 895, 895, 890, 890, 880,
    890, 900, 905, 900, 900, 900, 900, 890,
    890, 905, 905, 905, 905, 905, 900, 890,
    900, 900, 905, 905, 905, 905, 900, 895,
    895, 900, 905, 905, 905, 905, 900, 895,
    890, 900, 905, 905, 905, 905, 900, 890,
    890, 900, 900, 900, 900, 900, 900, 890,
    880, 890, 890, 895, 895, 890, 890, 880,
];

/// King table: positional bonus only; king material cancels out.
const KING: [i16; 64] = [
    20, 30, 10, 0, 0, 10, 30, 20,
    20, 20, 0, 0, 0, 0, 20, 20,
    -10, -20, -20, -20, -20, -20, -20, -10,
    -20, -30, -30, -40, -40, -30, -30, -20,
    -30, -40, -40, -50, -50, -40, -40, -30,
    -30, -40, -40, -50, -50, -40, -40, -30,
    -30, -40, -40, -50, -50, -40, -40, -30,
    -30, -40, -40, -50, -50, -40, -40, -30,
];
/// The pawn table's entry for square `sq`.
pub closed spec fn spec_pawn(sq: int) -> i16 {
    PAWN@[sq]
}

/// Reads the pawn table.
pub fn pawn_at(sq: usize) -> (r: i16)
    requires
        sq < 64,
    ensures
        r == spec_pawn(sq as int),
{
    PAWN[sq]
}

/// The knight table's entry for square `sq`.
pub closed spec fn spec_knight(sq: int) -> i16 {
    KNIGHT@[sq]
}

/// Reads the knight table.
pub fn knight_at(sq: usize) -> (r: i16)
    requires
        sq < 64,
    ensures
        r == spec_knight(sq as int),
{
    KNIGHT[sq]
}

/// The bishop table's entry for square `sq`.
pub closed spec fn spec_bishop(sq: int) -> i16 {
    BISHOP@[sq]
}

/// Reads the bishop table.
pub fn bishop_at(sq: usize) -> (r: i16)
    requires
        sq < 64,
    ensures
        r == spec_bishop(sq as int),
{
    BISHOP[sq]
}

/// The rook table's entry for square `sq`.
pub closed spec fn spec_rook(sq: int) -> i16 {
    ROOK@[sq]
}

/// Reads the rook table.
pub fn rook_at(sq: usize) -> (r: i16)
    requires
        sq < 64,
    ensures
        r == spec_rook(sq as int),
{
    ROOK[sq]
}

/// The queen table's entry for square `sq`.
pub closed spec fn spec_queen(sq: int) -> i16 {
    QUEEN@[sq]
}

/// Reads the queen table.
pub fn queen_at(sq: usize) -> (r: i16)
    requires
        sq < 64,
    ensures
        r == spec_queen(sq as int),
{
    QUEEN[sq]
}

/// The king table's entry for square `sq`.
pub closed spec fn spec_king(sq: int) -> i16 {
    KING@[sq]
}

/// Reads the king table.
pub fn king_at(sq: usize) -> (r: i16)
    requires
        sq < 64,
    ensures
        r == spec_king(sq as int),
{
    KING[sq]
}

} // verus!
