//! A depth-bounded adversarial search engine for chess: negamax tree search
//! with alpha-beta pruning, a transposition table keyed by a Zobrist
//! fingerprint, move-ordering heuristics, and a static positional evaluator.
//!
//! Board representation, legal-move generation, move application, terminal
//! outcome detection and notation parsing are delegated to the `shakmaty`
//! rules engine behind a small trusted boundary (`rules`); everything on this
//! side of that boundary is verified.

use vstd::prelude::*;

pub mod score;
pub mod pst;
pub mod board;
pub mod moves;
pub mod ttable;
pub mod rules;
pub mod search;
pub mod game;

verus! {

} // verus!
