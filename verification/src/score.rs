//! Score conventions shared by the evaluator, the transposition table and the
//! search: a signed centipawn scale, expressed from the perspective of the
//! side to move at the node being scored (negamax convention).

use vstd::prelude::*;

verus! {

/// The best score the search window can hold; also the "plus infinity" used
/// to open a full window. Chosen as `i16::MAX` so that its negation is
/// representable.
pub const INFINITY: i16 = 32767;

/// The worst score the search window can hold.
pub const NEG_INFINITY: i16 = -32767;

/// Base magnitude of the sentinel score for a decisive loss of the side to
/// move. The remaining depth is added to the magnitude so that faster mates
/// score more extreme. Kept well short of `INFINITY` so that depth
/// adjustments can never overflow.
pub const MATE_BASE: i16 = 32000;

/// Upper bound on the search depth, leaving `INFINITY - MATE_BASE - MAX_DEPTH`
/// headroom above every reachable score magnitude.
pub const MAX_DEPTH: u16 = 700;

/// Every score the search can return has magnitude at most this
/// (`MATE_BASE + MAX_DEPTH`), strictly below `INFINITY`.
pub const SCORE_LIMIT: i16 = 32700;

/// Static evaluations are clamped to this magnitude, so that a positional
/// score can never be mistaken for a mate sentinel.
pub const EVAL_LIMIT: i16 = 20000;

} // verus!
