//! The search core: negamax with alpha-beta pruning over positions of the
//! rules engine, with deterministic move ordering, a transposition table,
//! and the search drivers.
//!
//! The reference value of a position is the full-width minimax `minimax`,
//! defined without pruning and without a table. The pruning search is
//! proved against it: with the table disabled, `nega_max` returns a score
//! standing in the classical fail-soft relation to `minimax`, and the
//! drivers return exactly the move a full-width search would pick.

use vstd::prelude::*;
use crate::board::evaluate;
use crate::board::spec_evaluate;
use crate::moves::{move_score, spec_move_score};
use crate::rules::{
    GameOutcome, spec_legal_moves, spec_apply, spec_outcome, spec_zobrist, spec_turn_white,
    spec_board, spec_move_info, legal_moves_vec, apply_move, outcome_of, zobrist_of,
    turn_is_white, board_of, move_info_of, clone_move,
};
use crate::score::{INFINITY, NEG_INFINITY, MATE_BASE, MAX_DEPTH, SCORE_LIMIT, EVAL_LIMIT};
use crate::ttable::{TranspositionTable, TranspositionTableFlag};

verus! {

/// Capacity of the transposition table that one search call allocates:
/// a power of two, so that a hash can be masked into an index.
pub const TRANSPOSITION_TABLE_SIZE: usize = 1024 * 1024 * 8;

/// The ordering key of a move (lower keys are searched first).
pub open spec fn spec_key(m: shakmaty::Move) -> int {
    spec_move_score(spec_move_info(m))
}

/// Stable insertion of a scored move into a key-sorted sequence: the new
/// move goes after every move with an equal or smaller key.
pub open spec fn spec_insert_sorted(
    s: Seq<(i16, shakmaty::Move)>,
    x: (i16, shakmaty::Move),
) -> Seq<(i16, shakmaty::Move)>
    decreases s.len(),
{
    if s.len() == 0 {
        seq![x]
    } else if x.0 < s.last().0 {
        spec_insert_sorted(s.drop_last(), x).push(s.last())
    } else {
        s.push(x)
    }
}

/// The key-sorted, stable rearrangement of a sequence of scored moves.
pub open spec fn spec_sort_scored(s: Seq<(i16, shakmaty::Move)>) -> Seq<(i16, shakmaty::Move)>
    decreases s.len(),
{
    if s.len() == 0 {
        Seq::empty()
    } else {
        spec_insert_sorted(spec_sort_scored(s.drop_last()), s.last())
    }
}

/// Each move paired with its ordering key.
pub open spec fn spec_scored(moves: Seq<shakmaty::Move>) -> Seq<(i16, shakmaty::Move)> {
    moves.map_values(|m: shakmaty::Move| (spec_key(m) as i16, m))
}

/// The move list in search order: scored, stably sorted by ascending key,
/// and stripped of the keys. Deterministic in the input list.
pub open spec fn spec_ordered(moves: Seq<shakmaty::Move>) -> Seq<shakmaty::Move> {
    spec_sort_scored(spec_scored(moves)).map_values(|p: (i16, shakmaty::Move)| p.1)
}

/// Ascending keys.
pub open spec fn sorted_by_key(s: Seq<(i16, shakmaty::Move)>) -> bool {
    forall|i: int, j: int| 0 <= i <= j < s.len() ==> (#[trigger] s[i]).0 <= (#[trigger] s[j]).0
}

proof fn lemma_insert_sorted_basics(s: Seq<(i16, shakmaty::Move)>, x: (i16, shakmaty::Move))
    ensures
        spec_insert_sorted(s, x).len() == s.len() + 1,
        forall|y: (i16, shakmaty::Move)|
            #[trigger] spec_insert_sorted(s, x).contains(y) <==> (s.contains(y) || y == x),
        sorted_by_key(s) ==> sorted_by_key(spec_insert_sorted(s, x)),
    decreases s.len(),
{
    if s.len() == 0 {
        assert forall|y: (i16, shakmaty::Move)|
            #[trigger] spec_insert_sorted(s, x).contains(y) <==> (s.contains(y) || y == x) by {
            assert(spec_insert_sorted(s, x) == seq![x]);
            if y == x {
                assert(spec_insert_sorted(s, x)[0] == x);
            }
        }
    } else if x.0 < s.last().0 {
        lemma_insert_sorted_basics(s.drop_last(), x);
        let t = spec_insert_sorted(s.drop_last(), x);
        assert forall|y: (i16, shakmaty::Move)|
            #[trigger] spec_insert_sorted(s, x).contains(y) <==> (s.contains(y) || y == x) by {
            assert(spec_insert_sorted(s, x) == t.push(s.last()));
            lemma_push_contains(t, s.last(), y);
            lemma_push_contains(s.drop_last(), s.last(), y);
            assert(s.drop_last().push(s.last()) =~= s);
        }
        if sorted_by_key(s) {
            assert(sorted_by_key(s.drop_last()));
            assert forall|i: int, j: int|
                0 <= i <= j < spec_insert_sorted(s, x).len() implies (#[trigger] spec_insert_sorted(
                s,
                x,
            )[i]).0 <= (#[trigger] spec_insert_sorted(s, x)[j]).0 by {
                let r = spec_insert_sorted(s, x);
                assert(r == t.push(s.last()));
                if j < t.len() {
                } else {
                    assert(r[j] == s.last());
                    if i < t.len() {
                        assert(t.contains(t[i]));
                        if s.drop_last().contains(t[i]) {
                            let k = choose|k: int|
                                0 <= k < s.drop_last().len() && s.drop_last()[k] == t[i];
                            assert(s[k] == t[i]);
                            assert(s[k].0 <= s.last().0);
                        } else {
                            assert(t[i] == x);
                        }
                    }
                }
            }
        }
    } else {
        assert forall|y: (i16, shakmaty::Move)|
            #[trigger] spec_insert_sorted(s, x).contains(y) <==> (s.contains(y) || y == x) by {
            lemma_push_contains(s, x, y);
        }
        if sorted_by_key(s) {
            assert forall|i: int, j: int|
                0 <= i <= j < spec_insert_sorted(s, x).len() implies (#[trigger] spec_insert_sorted(
                s,
                x,
            )[i]).0 <= (#[trigger] spec_insert_sorted(s, x)[j]).0 by {
                let r = spec_insert_sorted(s, x);
                assert(r == s.push(x));
                if j == s.len() && i < s.len() {
                    assert(r[i] == s[i]);
                    assert(s.contains(s[i]));
                    assert(s[i].0 <= s.last().0 || s.len() == 1);
                }
            }
        }
    }
}

proof fn lemma_push_contains(
    s: Seq<(i16, shakmaty::Move)>,
    x: (i16, shakmaty::Move),
    y: (i16, shakmaty::Move),
)
    ensures
        s.push(x).contains(y) <==> (s.contains(y) || y == x),
{
    if s.push(x).contains(y) {
        let i = choose|i: int| 0 <= i < s.push(x).len() && s.push(x)[i] == y;
        if i < s.len() {
            assert(s[i] == y);
        }
    }
    if s.contains(y) {
        let i = choose|i: int| 0 <= i < s.len() && s[i] == y;
        assert(s.push(x)[i] == y);
    }
    if y == x {
        assert(s.push(x)[s.len() as int] == y);
    }
}

proof fn lemma_sort_scored_basics(s: Seq<(i16, shakmaty::Move)>)
    ensures
        spec_sort_scored(s).len() == s.len(),
        forall|y: (i16, shakmaty::Move)|
            #[trigger] spec_sort_scored(s).contains(y) <==> s.contains(y),
        sorted_by_key(spec_sort_scored(s)),
    decreases s.len(),
{
    if s.len() > 0 {
        lemma_sort_scored_basics(s.drop_last());
        lemma_insert_sorted_basics(spec_sort_scored(s.drop_last()), s.last());
        assert forall|y: (i16, shakmaty::Move)|
            #[trigger] spec_sort_scored(s).contains(y) <==> s.contains(y) by {
            lemma_push_contains(s.drop_last(), s.last(), y);
            assert(s.drop_last().push(s.last()) =~= s);
        }
    }
}

/// The ordered move list is a rearrangement: same length, same members,
/// and the keys run in ascending order, so every promotion or capture
/// stands before every quiet move.
pub proof fn lemma_ordered_members(moves: Seq<shakmaty::Move>)
    ensures
        spec_ordered(moves).len() == moves.len(),
        forall|i: int|
            0 <= i < moves.len() ==> moves.contains(#[trigger] spec_ordered(moves)[i]),
        forall|m: shakmaty::Move| #[trigger] spec_ordered(moves).contains(m) <==> moves.contains(m),
        forall|i: int, j: int|
            0 <= i <= j < moves.len() ==> spec_key(#[trigger] spec_ordered(moves)[i]) <= spec_key(
                #[trigger] spec_ordered(moves)[j],
            ),
{
    let scored = spec_scored(moves);
    let sorted = spec_sort_scored(scored);
    let stripped = sorted.map_values(|p: (i16, shakmaty::Move)| p.1);
    lemma_sort_scored_basics(scored);
    assert(scored.len() == moves.len());
    assert(stripped.len() == sorted.len());

    assert forall|q: (i16, shakmaty::Move)| #[trigger] scored.contains(q) implies (moves.contains(
        q.1,
    ) && q.0 as int == spec_key(q.1) && spec_key(q.1) == q.0 as int) by {
        let k = choose|k: int| 0 <= k < scored.len() && scored[k] == q;
        assert(scored[k] == (spec_key(moves[k]) as i16, moves[k]));
        assert(moves.contains(moves[k]));
        lemma_key_range(moves[k]);
    }

    assert forall|i: int| 0 <= i < moves.len() implies moves.contains(
        #[trigger] spec_ordered(moves)[i],
    ) by {
        assert(spec_ordered(moves)[i] == sorted[i].1);
        assert(sorted.contains(sorted[i]));
        assert(scored.contains(sorted[i]));
    }

    assert forall|m: shakmaty::Move| #[trigger]
        spec_ordered(moves).contains(m) <==> moves.contains(m) by {
        if spec_ordered(moves).contains(m) {
            let i = choose|i: int| 0 <= i < stripped.len() && stripped[i] == m;
            assert(sorted.contains(sorted[i]));
            assert(scored.contains(sorted[i]));
        }
        if moves.contains(m) {
            let k = choose|k: int| 0 <= k < moves.len() && moves[k] == m;
            assert(scored[k] == (spec_key(m) as i16, m));
            assert(scored.contains(scored[k]));
            assert(sorted.contains(scored[k]));
            let j = choose|j: int| 0 <= j < sorted.len() && sorted[j] == scored[k];
            assert(stripped[j] == m);
            assert(stripped.contains(stripped[j]));
        }
    }

    assert forall|i: int, j: int| 0 <= i <= j < moves.len() implies spec_key(
        #[trigger] spec_ordered(moves)[i],
    ) <= spec_key(#[trigger] spec_ordered(moves)[j]) by {
        assert(sorted[i].0 <= sorted[j].0);
        assert(sorted.contains(sorted[i]));
        assert(sorted.contains(sorted[j]));
        assert(scored.contains(sorted[i]));
        assert(scored.contains(sorted[j]));
        assert(spec_ordered(moves)[i] == sorted[i].1);
        assert(spec_ordered(moves)[j] == sorted[j].1);
    }
}

/// The ordering key is small: it fits comfortably in `i16`.
proof fn lemma_key_range(m: shakmaty::Move)
    ensures
        -149 <= spec_key(m) <= 0,
{
}

/// Inserting at the position the exec scan finds is the same as the spec
/// insertion from the end.
proof fn lemma_insert_at(
    s: Seq<(i16, shakmaty::Move)>,
    x: (i16, shakmaty::Move),
    idx: int,
)
    requires
        0 <= idx <= s.len(),
        forall|j: int| idx <= j < s.len() ==> (#[trigger] s[j]).0 > x.0,
        idx > 0 ==> s[idx - 1].0 <= x.0,
    ensures
        spec_insert_sorted(s, x) == s.insert(idx, x),
    decreases s.len(),
{
    if s.len() == 0 {
        assert(spec_insert_sorted(s, x) =~= s.insert(0, x));
    } else if idx == s.len() {
        assert(spec_insert_sorted(s, x) == s.push(x));
        assert(s.push(x) =~= s.insert(idx, x));
    } else {
        assert(s[s.len() - 1].0 > x.0);
        lemma_insert_at(s.drop_last(), x, idx);
        assert(spec_insert_sorted(s, x) == spec_insert_sorted(s.drop_last(), x).push(s.last()));
        assert(s.drop_last().insert(idx, x).push(s.last()) =~= s.insert(idx, x));
    }
}

/// Pairs each legal move with its ordering key and sorts stably by
/// ascending key: promotions and captures first, exactly the order
/// `spec_ordered` describes.
pub fn order_moves(moves: &Vec<shakmaty::Move>) -> (r: Vec<shakmaty::Move>)
    ensures
        r@ == spec_ordered(moves@),
        r@.len() == moves@.len(),
        forall|i: int| 0 <= i < r@.len() ==> moves@.contains(#[trigger] r@[i]),
{
    let ghost gmoves = moves@;
    let mut scored: Vec<(i16, shakmaty::Move)> = Vec::new();
    let mut i: usize = 0;
    while i < moves.len()
        invariant
            i <= moves@.len(),
            moves@ == gmoves,
            scored@ == spec_scored(gmoves.take(i as int)),
        decreases moves@.len() - i,
    {
        let info = move_info_of(&moves[i]);
        let k = move_score(&info);
        scored.push((k, clone_move(&moves[i])));
        proof {
            assert(gmoves.take(i as int + 1) =~= gmoves.take(i as int).push(gmoves[i as int]));
            assert(spec_scored(gmoves.take(i as int + 1)) =~= spec_scored(
                gmoves.take(i as int),
            ).push((spec_key(gmoves[i as int]) as i16, gmoves[i as int])));
            lemma_key_range(gmoves[i as int]);
        }
        i = i + 1;
    }
    proof {
        assert(gmoves.take(gmoves.len() as int) =~= gmoves);
    }

    let mut sorted: Vec<(i16, shakmaty::Move)> = Vec::new();
    let mut i: usize = 0;
    while i < scored.len()
        invariant
            i <= scored@.len(),
            scored@ == spec_scored(gmoves),
            sorted@ == spec_sort_scored(scored@.take(i as int)),
            sorted_by_key(sorted@),
        decreases scored@.len() - i,
    {
        let key = scored[i].0;
        let mut idx: usize = sorted.len();
        while idx > 0 && sorted[idx - 1].0 > key
            invariant
                idx <= sorted@.len(),
                forall|j: int| idx <= j < sorted@.len() ==> (#[trigger] sorted@[j]).0 > key,
            decreases idx,
        {
            idx = idx - 1;
        }
        let mv = clone_move(&scored[i].1);
        let ghost old_sorted = sorted@;
        sorted.insert(idx, (key, mv));
        proof {
            assert((key, mv) == scored@[i as int]);
            lemma_insert_at(old_sorted, scored@[i as int], idx as int);
            assert(scored@.take(i as int + 1) =~= scored@.take(i as int).push(
                scored@[i as int],
            ));
            assert(scored@.take(i as int + 1).drop_last() =~= scored@.take(i as int));
            lemma_insert_sorted_basics(old_sorted, scored@[i as int]);
        }
        i = i + 1;
    }
    proof {
        assert(scored@.take(scored@.len() as int) =~= scored@);
    }

    let mut out: Vec<shakmaty::Move> = Vec::new();
    let mut i: usize = 0;
    while i < sorted.len()
        invariant
            i <= sorted@.len(),
            sorted@ == spec_sort_scored(spec_scored(gmoves)),
            out@ == sorted@.take(i as int).map_values(|p: (i16, shakmaty::Move)| p.1),
        decreases sorted@.len() - i,
    {
        out.push(clone_move(&sorted[i].1));
        proof {
            assert(sorted@.take(i as int + 1) =~= sorted@.take(i as int).push(
                sorted@[i as int],
            ));
            assert(sorted@.take(i as int + 1).map_values(|p: (i16, shakmaty::Move)| p.1)
                =~= sorted@.take(i as int).map_values(|p: (i16, shakmaty::Move)| p.1).push(
                sorted@[i as int].1,
            ));
        }
        i = i + 1;
    }
    proof {
        assert(sorted@.take(sorted@.len() as int) =~= sorted@);
        lemma_ordered_members(gmoves);
    }
    out
}

/// The score of a terminal position, seen from the side to move: zero for
/// a draw, and a large negative sentinel made more extreme by the
/// remaining depth for a loss, so that faster mates score more extreme.
pub open spec fn terminal_score(o: GameOutcome, depth: u16) -> int {
    if o == GameOutcome::Draw {
        0
    } else {
        -(MATE_BASE as int) - depth
    }
}

/// The static evaluation seen from the side to move (the negamax
/// convention: the evaluator scores from White's perspective).
pub open spec fn leaf_score(p: shakmaty::Chess) -> int {
    if spec_turn_white(p) {
        spec_evaluate(spec_board(p))
    } else {
        -spec_evaluate(spec_board(p))
    }
}

/// The best negamax value among the first `n` moves of `s`, each searched
/// to `depth - 1`: the running maximum of the expansion step. `NEG_INFINITY`
/// when there is nothing to take the maximum of.
pub open spec fn best_move_score(
    p: shakmaty::Chess,
    depth: u16,
    s: Seq<shakmaty::Move>,
    n: int,
) -> int
    decreases depth, n,
{
    if n <= 0 || depth == 0 {
        NEG_INFINITY as int
    } else {
        let prev = best_move_score(p, depth, s, n - 1);
        let cur = -minimax(spec_apply(p, s[n - 1]), (depth - 1) as u16);
        if cur > prev {
            cur
        } else {
            prev
        }
    }
}

/// The reference value: full-width minimax without pruning and without a
/// table. A terminal position scores by its outcome; at depth zero the
/// static evaluation decides; otherwise the value is the best negamax
/// value over all legal moves.
pub open spec fn minimax(p: shakmaty::Chess, depth: u16) -> int
    decreases depth, spec_legal_moves(p).len() + 1,
{
    if spec_outcome(p) != GameOutcome::Ongoing {
        terminal_score(spec_outcome(p), depth)
    } else if depth == 0 {
        leaf_score(p)
    } else {
        best_move_score(p, depth, spec_legal_moves(p), spec_legal_moves(p).len() as int)
    }
}

/// Mate preference: a loss with more remaining depth (a faster mate, seen
/// from the winner) scores strictly more extreme, so whenever several
/// mating depths are found the shortest forced mate wins the comparison,
/// and the losing side drags the mate out as long as it can.
pub proof fn lemma_faster_mate_scores_more_extreme(o: GameOutcome, d1: u16, d2: u16)
    requires
        o != GameOutcome::Draw,
        d1 < d2,
    ensures
        terminal_score(o, d2) < terminal_score(o, d1),
{
}

/// Headroom between the evaluator and the mate sentinels: a static
/// evaluation is clamped within `EVAL_LIMIT`, strictly inside the mate
/// range, so no positional score is ever mistaken for a forced mate.
pub proof fn lemma_mate_outweighs_static_eval(b: crate::board::BoardModel, depth: u16)
    ensures
        -(EVAL_LIMIT as int) <= spec_evaluate(b) <= EVAL_LIMIT as int,
        terminal_score(GameOutcome::Loss, depth) < -(EVAL_LIMIT as int),
{
}

/// Every reference value fits strictly inside the open search window
/// `(-INFINITY, INFINITY)` shifted by one: scores never reach the infinities'
/// magnitude except through an empty move list.
proof fn lemma_minimax_range(p: shakmaty::Chess, depth: u16)
    requires
        depth <= MAX_DEPTH,
    ensures
        NEG_INFINITY as int <= minimax(p, depth) <= INFINITY as int,
    decreases depth, spec_legal_moves(p).len() + 1,
{
    if spec_outcome(p) != GameOutcome::Ongoing {
    } else if depth == 0 {
    } else {
        lemma_best_range(p, depth, spec_legal_moves(p), spec_legal_moves(p).len() as int);
    }
}

proof fn lemma_best_range(p: shakmaty::Chess, depth: u16, s: Seq<shakmaty::Move>, n: int)
    requires
        depth <= MAX_DEPTH,
    ensures
        NEG_INFINITY as int <= best_move_score(p, depth, s, n) <= INFINITY as int,
    decreases depth, n,
{
    if n > 0 && depth > 0 {
        lemma_best_range(p, depth, s, n - 1);
        lemma_minimax_range(spec_apply(p, s[n - 1]), (depth - 1) as u16);
    }
}

/// A longer prefix can only improve the best value.
proof fn lemma_best_monotone(p: shakmaty::Chess, depth: u16, s: Seq<shakmaty::Move>, n1: int, n2: int)
    requires
        n1 <= n2,
    ensures
        best_move_score(p, depth, s, n1) <= best_move_score(p, depth, s, n2),
    decreases n2,
{
    if n1 < n2 && n2 > 0 {
        lemma_best_monotone(p, depth, s, n1, n2 - 1);
    }
}

/// The best value over a prefix is attained by one of its moves and bounds
/// them all.
proof fn lemma_best_witness(p: shakmaty::Chess, depth: u16, s: Seq<shakmaty::Move>, n: int)
    requires
        1 <= depth <= MAX_DEPTH,
        0 <= n <= s.len(),
    ensures
        forall|j: int|
            0 <= j < n ==> -minimax(spec_apply(p, #[trigger] s[j]), (depth - 1) as u16)
                <= best_move_score(p, depth, s, n),
        n > 0 ==> exists|j: int|
            0 <= j < n && best_move_score(p, depth, s, n) == -minimax(
                spec_apply(p, s[j]),
                (depth - 1) as u16,
            ),
        n == 0 ==> best_move_score(p, depth, s, n) == NEG_INFINITY as int,
    decreases n,
{
    if n > 0 {
        lemma_best_witness(p, depth, s, n - 1);
        lemma_minimax_range(spec_apply(p, s[n - 1]), (depth - 1) as u16);
        let prev = best_move_score(p, depth, s, n - 1);
        let cur = -minimax(spec_apply(p, s[n - 1]), (depth - 1) as u16);
        if cur > prev {
        } else if n == 1 {
            assert(prev == NEG_INFINITY as int);
            assert(cur == NEG_INFINITY as int);
            assert(best_move_score(p, depth, s, n) == cur);
        }
    }
}

/// The best value over a whole move list depends only on which moves are in
/// it: two lists with the same members give the same value.
proof fn lemma_best_same_members(
    p: shakmaty::Chess,
    depth: u16,
    s1: Seq<shakmaty::Move>,
    s2: Seq<shakmaty::Move>,
)
    requires
        1 <= depth <= MAX_DEPTH,
        forall|m: shakmaty::Move| s1.contains(m) <==> s2.contains(m),
    ensures
        best_move_score(p, depth, s1, s1.len() as int) == best_move_score(
            p,
            depth,
            s2,
            s2.len() as int,
        ),
{
    lemma_best_witness(p, depth, s1, s1.len() as int);
    lemma_best_witness(p, depth, s2, s2.len() as int);
    let b1 = best_move_score(p, depth, s1, s1.len() as int);
    let b2 = best_move_score(p, depth, s2, s2.len() as int);
    if s1.len() == 0 {
        if s2.len() > 0 {
            assert(s2.contains(s2[0]));
            assert(s1.contains(s2[0]));
            assert(false);
        }
    } else {
        assert(s2.len() > 0) by {
            assert(s1.contains(s1[0]));
        }
        assert(b1 <= b2) by {
            let j = choose|j: int|
                0 <= j < s1.len() && b1 == -minimax(spec_apply(p, s1[j]), (depth - 1) as u16);
            assert(s1.contains(s1[j]));
            let k = choose|k: int| 0 <= k < s2.len() && s2[k] == s1[j];
            assert(-minimax(spec_apply(p, s2[k]), (depth - 1) as u16) <= b2);
        }
        assert(b2 <= b1) by {
            let j = choose|j: int|
                0 <= j < s2.len() && b2 == -minimax(spec_apply(p, s2[j]), (depth - 1) as u16);
            assert(s2.contains(s2[j]));
            let k = choose|k: int| 0 <= k < s1.len() && s1[k] == s2[j];
            assert(-minimax(spec_apply(p, s1[k]), (depth - 1) as u16) <= b1);
        }
    }
}

/// Negamax with alpha-beta pruning and the transposition table.
///
/// Unconditionally the result is bounded and the table stays well-formed
/// with its capacity unchanged. Run over the disabled table, the search
/// leaves it disabled and the result `r` stands in the fail-soft relation
/// to the reference minimax value: below `beta` it is an upper bound on the
/// true value, above `alpha` a lower bound — so inside the window it is the
/// true value exactly.
pub fn nega_max(
    p: &shakmaty::Chess,
    depth: u16,
    alpha: i16,
    beta: i16,
    table: &mut TranspositionTable,
) -> (r: i16)
    requires
        old(table).wf(),
        depth <= MAX_DEPTH,
        NEG_INFINITY <= alpha < beta <= INFINITY,
    ensures
        final(table).wf(),
        final(table).entries@.len() == old(table).entries@.len(),
        -SCORE_LIMIT <= r <= SCORE_LIMIT,
        old(table).disabled() ==> final(table).disabled(),
        old(table).disabled() ==> (r < beta ==> minimax(*p, depth) <= r as int),
        old(table).disabled() ==> (r > alpha ==> minimax(*p, depth) >= r as int),
    decreases depth,
{
    let ghost dis = old(table).disabled();
    let outcome = outcome_of(p);
    if matches!(outcome, GameOutcome::Draw) {
        return 0;
    }
    if matches!(outcome, GameOutcome::Loss) {
        return -MATE_BASE - (depth as i16);
    }

    if depth == 0 {
        let b = board_of(p);
        let ev = evaluate(&b);
        if turn_is_white(p) {
            return ev;
        } else {
            return -ev;
        }
    }

    let mut alpha_m = alpha;
    let mut beta_m = beta;
    let original_alpha = alpha;

    let hash = zobrist_of(p);
    let probed = table.probe(hash, depth);
    if let Some(e) = probed {
        if matches!(e.flag, TranspositionTableFlag::Exact) {
            return e.score;
        }
        if matches!(e.flag, TranspositionTableFlag::Lowerbound) {
            if e.score > alpha_m {
                alpha_m = e.score;
            }
        }
        if matches!(e.flag, TranspositionTableFlag::Upperbound) {
            if e.score < beta_m {
                beta_m = e.score;
            }
        }
        if alpha_m >= beta_m {
            return e.score;
        }
    }

    let legal = legal_moves_vec(p);
    let ordered = order_moves(&legal);
    let n = ordered.len();

    let mut value: i16 = NEG_INFINITY;
    let mut i: usize = 0;
    while i < n && alpha_m < beta_m
        invariant
            n == ordered@.len(),
            ordered@ == spec_ordered(spec_legal_moves(*p)),
            forall|j: int|
                0 <= j < ordered@.len() ==> spec_legal_moves(*p).contains(#[trigger] ordered@[j]),
            i <= n,
            1 <= depth <= MAX_DEPTH,
            table.wf(),
            table.entries@.len() == old(table).entries@.len(),
            NEG_INFINITY <= alpha_m,
            beta_m <= INFINITY,
            i == 0 ==> value == NEG_INFINITY && alpha_m < beta_m,
            i > 0 ==> -SCORE_LIMIT <= value <= SCORE_LIMIT,
            value <= alpha_m,
            dis == old(table).disabled(),
            dis ==> table.disabled(),
            dis ==> beta_m == beta,
            dis ==> alpha_m == (if value > alpha { value } else { alpha }),
            dis ==> (value < beta_m ==> best_move_score(*p, depth, ordered@, i as int) <= value
                as int),
            dis ==> (value > alpha ==> best_move_score(*p, depth, ordered@, i as int) >= value
                as int),
        decreases n - i,
    {
        let child = apply_move(p, &ordered[i]);
        let s = nega_max(&child, depth - 1, -beta_m, -alpha_m, table);
        let t = -s;
        proof {
            if dis {
                let gi = i as int;
                let val_i = -minimax(spec_apply(*p, ordered@[gi]), (depth - 1) as u16);
                assert(best_move_score(*p, depth, ordered@, gi + 1) == (if val_i
                    > best_move_score(*p, depth, ordered@, gi) {
                    val_i
                } else {
                    best_move_score(*p, depth, ordered@, gi)
                }));
                assert(t > alpha_m ==> val_i >= t as int);
                assert(t < beta_m ==> val_i <= t as int);
            }
        }
        if t > value {
            value = t;
        }
        if value > alpha_m {
            alpha_m = value;
        }
        i = i + 1;
    }
    proof {
        if dis {
            lemma_ordered_members(spec_legal_moves(*p));
            lemma_best_monotone(*p, depth, ordered@, i as int, n as int);
            lemma_best_same_members(*p, depth, ordered@, spec_legal_moves(*p));
        }
    }

    let flag = if value <= original_alpha {
        TranspositionTableFlag::Upperbound
    } else if value >= beta_m {
        TranspositionTableFlag::Lowerbound
    } else {
        TranspositionTableFlag::Exact
    };
    table.store(hash, value, depth, flag);
    value
}

/// The score a root move earns: a move repeating a position whose
/// fingerprint is already in the game's history counts as an immediate
/// draw; any other move is searched to `depth`.
pub open spec fn root_move_score(
    p: shakmaty::Chess,
    depth: u16,
    hist: Seq<u64>,
    m: shakmaty::Move,
) -> int {
    if hist.contains(spec_zobrist(spec_apply(p, m))) {
        0
    } else {
        -minimax(spec_apply(p, m), depth)
    }
}

/// The index of the chosen move among the first `n` ordered root moves:
/// the strictly greatest score wins, ties keep the earliest move.
pub open spec fn best_root_index(
    p: shakmaty::Chess,
    depth: u16,
    hist: Seq<u64>,
    s: Seq<shakmaty::Move>,
    n: int,
) -> int
    decreases n,
{
    if n <= 1 {
        0
    } else {
        let prev = best_root_index(p, depth, hist, s, n - 1);
        if root_move_score(p, depth, hist, s[n - 1]) > root_move_score(p, depth, hist, s[prev]) {
            n - 1
        } else {
            prev
        }
    }
}

/// The move a full-width search of the given depth picks from `p`: the
/// first move of greatest score in the deterministic search order.
pub open spec fn spec_best_move(p: shakmaty::Chess, depth: u16, hist: Seq<u64>) -> shakmaty::Move {
    let s = spec_ordered(spec_legal_moves(p));
    s[best_root_index(p, depth, hist, s, s.len() as int)]
}

/// Whether a fingerprint is among the previously seen ones.
pub fn contains_u64(v: &Vec<u64>, x: u64) -> (r: bool)
    ensures
        r == v@.contains(x),
{
    let mut i: usize = 0;
    while i < v.len()
        invariant
            i <= v@.len(),
            forall|j: int| 0 <= j < i ==> v@[j] != x,
        decreases v@.len() - i,
    {
        if v[i] == x {
            return true;
        }
        i = i + 1;
    }
    proof {
        if v@.contains(x) {
            let j = choose|j: int| 0 <= j < v@.len() && v@[j] == x;
            assert(false);
        }
    }
    false
}

/// Iterates the ordered root moves, searching each to `max_depth`, and
/// returns the first move of strictly greatest score. Over the disabled
/// table the choice is pinned exactly: it is `spec_best_move`.
fn search_root(
    p: &shakmaty::Chess,
    max_depth: u16,
    history: &Vec<u64>,
    table: &mut TranspositionTable,
) -> (r: shakmaty::Move)
    requires
        old(table).wf(),
        spec_outcome(*p) == GameOutcome::Ongoing,
        max_depth <= MAX_DEPTH,
    ensures
        final(table).wf(),
        final(table).entries@.len() == old(table).entries@.len(),
        spec_legal_moves(*p).contains(r),
        old(table).disabled() ==> r == spec_best_move(*p, max_depth, history@),
{
    let ghost dis = old(table).disabled();
    // A position whose game goes on has at least one legal move; asking
    // the rules engine for the outcome brings that fact into scope.
    let _ongoing = outcome_of(p);
    assert(spec_legal_moves(*p).len() > 0);
    let legal = legal_moves_vec(p);
    let ordered = order_moves(&legal);
    let n = ordered.len();

    let mut best_score: i16 = NEG_INFINITY;
    let mut best_index: usize = 0;
    let mut i: usize = 0;
    while i < n
        invariant
            n == ordered@.len(),
            n >= 1,
            ordered@ == spec_ordered(spec_legal_moves(*p)),
            forall|j: int|
                0 <= j < ordered@.len() ==> spec_legal_moves(*p).contains(#[trigger] ordered@[j]),
            i <= n,
            max_depth <= MAX_DEPTH,
            table.wf(),
            table.entries@.len() == old(table).entries@.len(),
            i == 0 ==> best_index == 0 && best_score == NEG_INFINITY,
            i > 0 ==> best_index < i && -SCORE_LIMIT <= best_score <= SCORE_LIMIT,
            dis == old(table).disabled(),
            dis ==> table.disabled(),
            dis && i > 0 ==> best_index as int == best_root_index(
                *p,
                max_depth,
                history@,
                ordered@,
                i as int,
            ) && best_score as int == root_move_score(
                *p,
                max_depth,
                history@,
                ordered@[best_index as int],
            ),
        decreases n - i,
    {
        let child = apply_move(p, &ordered[i]);
        let child_hash = zobrist_of(&child);
        let sc: i16 = if contains_u64(history, child_hash) {
            0
        } else {
            let s = nega_max(&child, max_depth, NEG_INFINITY, INFINITY, table);
            -s
        };
        proof {
            if dis {
                let gi = i as int;
                assert(sc as int == root_move_score(*p, max_depth, history@, ordered@[gi]));
                assert(best_root_index(*p, max_depth, history@, ordered@, gi + 1) == (if gi == 0 {
                    0
                } else {
                    let prev = best_root_index(*p, max_depth, history@, ordered@, gi);
                    if root_move_score(*p, max_depth, history@, ordered@[gi]) > root_move_score(
                        *p,
                        max_depth,
                        history@,
                        ordered@[prev],
                    ) {
                        gi
                    } else {
                        prev
                    }
                }));
            }
        }
        if sc > best_score {
            best_score = sc;
            best_index = i;
        }
        i = i + 1;
    }
    clone_move(&ordered[best_index])
}

/// Selects the best move for the side to move by a fixed-depth search with
/// a fresh transposition table. The caller must hand in a position that is
/// not terminal; the returned move is one of its legal moves.
pub fn find_best_move(chess: &shakmaty::Chess, max_depth: u16) -> (r: shakmaty::Move)
    requires
        spec_outcome(*chess) == GameOutcome::Ongoing,
        max_depth <= MAX_DEPTH,
    ensures
        spec_legal_moves(*chess).contains(r),
{
    proof {
        assert((8388608u64 & ((8388608u64 - 1) as u64)) == 0) by (bit_vector);
        assert(TRANSPOSITION_TABLE_SIZE as u64 == 8388608u64);
    }
    let mut table = TranspositionTable::new(TRANSPOSITION_TABLE_SIZE);
    let history: Vec<u64> = Vec::new();
    search_root(chess, max_depth, &history, &mut table)
}

/// The same search with the transposition table disabled: every node is
/// searched afresh. The returned move is pinned exactly: it is the move
/// the full-width reference minimax picks, so the cached search can be
/// held against it, and two calls on the same inputs return the same move.
pub fn find_best_move_uncached(chess: &shakmaty::Chess, max_depth: u16) -> (r: shakmaty::Move)
    requires
        spec_outcome(*chess) == GameOutcome::Ongoing,
        max_depth <= MAX_DEPTH,
    ensures
        spec_legal_moves(*chess).contains(r),
        r == spec_best_move(*chess, max_depth, Seq::<u64>::empty()),
{
    proof {
        assert((0u64 & ((0u64 - 1) as u64)) == 0) by (bit_vector);
    }
    let mut table = TranspositionTable::new(0);
    let history: Vec<u64> = Vec::new();
    search_root(chess, max_depth, &history, &mut table)
}

/// The explicit-error variant for hosting code: `None` exactly on a
/// terminal position, instead of a contract violation.
pub fn try_find_best_move(chess: &shakmaty::Chess, max_depth: u16) -> (r: Option<
    shakmaty::Move,
>)
    requires
        max_depth <= MAX_DEPTH,
    ensures
        r is Some <==> spec_outcome(*chess) == GameOutcome::Ongoing,
        r matches Some(m) ==> spec_legal_moves(*chess).contains(m),
{
    let oc = outcome_of(chess);
    if matches!(oc, GameOutcome::Ongoing) {
        Some(find_best_move(chess, max_depth))
    } else {
        None
    }
}

/// Iterative deepening under a wall-clock budget: searches depth 1, then
/// ever deeper passes while the budget is not exhausted, and returns the
/// answer of the most recently completed pass — never a move from an
/// incomplete one. Positions whose fingerprint is in `history` count as
/// immediate draws at the root, discouraging repetitions.
pub fn find_best_move_with_time(
    chess: &shakmaty::Chess,
    budget_millis: u64,
    history: &Vec<u64>,
) -> (r: shakmaty::Move)
    requires
        spec_outcome(*chess) == GameOutcome::Ongoing,
    ensures
        spec_legal_moves(*chess).contains(r),
{
    let start = crate::rules::clock_now();
    proof {
        assert((8388608u64 & ((8388608u64 - 1) as u64)) == 0) by (bit_vector);
        assert(TRANSPOSITION_TABLE_SIZE as u64 == 8388608u64);
    }
    let mut table = TranspositionTable::new(TRANSPOSITION_TABLE_SIZE);
    let mut best = search_root(chess, 1, history, &mut table);
    let mut depth: u16 = 2;
    while depth <= MAX_DEPTH
        invariant
            spec_outcome(*chess) == GameOutcome::Ongoing,
            spec_legal_moves(*chess).contains(best),
            table.wf(),
        decreases MAX_DEPTH - depth + 1,
    {
        if crate::rules::millis_since(&start) >= budget_millis as u128 {
            break ;
        }
        best = search_root(chess, depth, history, &mut table);
        depth = depth + 1;
    }
    best
}

} // verus!
