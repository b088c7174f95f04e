//! What the move orderer reads of a move, and the ordering key itself.
//!
//! Moves are sorted by ascending key, so the most promising moves come
//! first: every promotion or capture has a strictly negative key, every
//! quiet move has key zero, and among captures the key prefers capturing a
//! valuable victim with a cheap attacker.

use vstd::prelude::*;
use crate::board::PieceRole;

verus! {

/// The ordering-relevant facts about a move: the moved role, the captured
/// role if the move is a capture, and whether it promotes.
#[derive(Clone, Copy, Debug)]
pub struct MoveInfo {
    pub role: PieceRole,
    pub capture: Option<PieceRole>,
    pub promotion: bool,
}

/// Worth of the moved role when it captures: cheap attackers are preferred.
pub open spec fn attacker_value(role: PieceRole) -> int {
    match role {
        PieceRole::Pawn => 1,
        PieceRole::Bishop => 3,
        PieceRole::Knight => 3,
        PieceRole::Rook => 5,
        _ => 9,
    }
}

/// Worth of the captured role, on a scale ten times the attacker's, so that
/// the victim dominates the comparison.
pub open spec fn victim_value(role: PieceRole) -> int {
    match role {
        PieceRole::Pawn => 10,
        PieceRole::Bishop => 30,
        PieceRole::Knight => 30,
        PieceRole::Rook => 50,
        _ => 90,
    }
}

/// Whether a move is worth trying early: a promotion or a capture.
pub open spec fn is_interesting(mi: MoveInfo) -> bool {
    mi.promotion || mi.capture is Some
}

/// The ordering key: promotions get a flat bonus, captures get
/// attacker-minus-victim; lower keys sort first.
pub open spec fn spec_move_score(mi: MoveInfo) -> int {
    (if mi.promotion {
        -60
    } else {
        0
    }) + (match mi.capture {
        Some(victim) => attacker_value(mi.role) - victim_value(victim),
        None => 0,
    })
}

/// Computes the ordering key of a move.
pub fn move_score(mi: &MoveInfo) -> (s: i16)
    ensures
        s as int == spec_move_score(*mi),
{
    let mut s: i16 = if mi.promotion {
        -60
    } else {
        0
    };
    if let Some(victim) = mi.capture {
        let attacker: i16 = match mi.role {
            PieceRole::Pawn => 1,
            PieceRole::Bishop => 3,
            PieceRole::Knight => 3,
            PieceRole::Rook => 5,
            _ => 9,
        };
        let victim_worth: i16 = match victim {
            PieceRole::Pawn => 10,
            PieceRole::Bishop => 30,
            PieceRole::Knight => 30,
            PieceRole::Rook => 50,
            _ => 90,
        };
        s = s + attacker - victim_worth;
    }
    s
}

/// Promotions and captures sort strictly before quiet moves: an interesting
/// move's key is negative, a quiet move's key is zero.
pub proof fn lemma_interesting_moves_sort_first(mi: MoveInfo)
    ensures
        is_interesting(mi) <==> spec_move_score(mi) < 0,
        !is_interesting(mi) ==> spec_move_score(mi) == 0,
{
}

} // verus!
