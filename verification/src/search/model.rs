use vstd::prelude::*;

use crate::evaluation::eval_spec;
use crate::game::{after_move, legal_moves_of, status_of, PositionStatus};
use crate::search::alphabeta::{
    ab_moves_spec, ab_root_spec, ab_search_spec, adjust_mate, improves, init_best, is_leaf,
    leaf_result,
};
use crate::search::{EvaluationFunction, SearchConfig, SearchResultModel};
use crate::utils::consts::{MATE_VALUE, MAX_SEARCH_DEPTH};

verus! {

/// Every move of `pv`, played in order from `p`, is legal where it is played.
pub open spec fn pv_reaches(p: shakmaty::Chess, pv: Seq<shakmaty::Move>) -> bool
    decreases pv.len(),
{
    pv.len() == 0 || (legal_moves_of(p).contains(pv[0]) && pv_reaches(
        after_move(p, pv[0]),
        pv.skip(1),
    ))
}

/// The position that playing `pv` in order from `p` reaches.
pub open spec fn pv_leaf(p: shakmaty::Chess, pv: Seq<shakmaty::Move>) -> shakmaty::Chess
    decreases pv.len(),
{
    if pv.len() == 0 {
        p
    } else {
        pv_leaf(after_move(p, pv[0]), pv.skip(1))
    }
}

/// The score a node `len` plies above a leaf reports for that leaf's static
/// evaluation: the mate-distance adjustment applied once per ply on the way
/// up.
pub open spec fn lifted_value(leaf_value: int, len: nat) -> int
    decreases len,
{
    if len == 0 {
        leaf_value
    } else {
        adjust_mate(lifted_value(leaf_value, (len - 1) as nat), (len - 1) as nat)
    }
}

/// What the search trusts of its collaborators within `depth` plies of `p`:
/// the move generator is total on undecided positions, and every static
/// evaluation stays within the mate band. The game rules and the evaluations
/// of this crate satisfy both.
pub open spec fn collaborators_ok(f: EvaluationFunction, p: shakmaty::Chess, depth: nat) -> bool
    decreases depth,
{
    &&& -(MATE_VALUE as int) <= eval_spec(f, p) <= MATE_VALUE as int
    &&& (status_of(p) == PositionStatus::Ongoing ==> legal_moves_of(p).len() > 0)
    &&& (depth > 0 ==> forall|i: int|
        0 <= i < legal_moves_of(p).len() ==> collaborators_ok(
            f,
            #[trigger] after_move(p, legal_moves_of(p)[i]),
            (depth - 1) as nat,
        ))
}

/// A result a search of `p` at `depth` can stand behind: its line is legal
/// from `p`, no longer than the depth, its value is the line's leaf
/// evaluation lifted through the mate-distance adjustment, it stays within
/// the mate band, and a bare mate score pins the line's length.
pub open spec fn sound_result(
    f: EvaluationFunction,
    p: shakmaty::Chess,
    depth: nat,
    r: SearchResultModel,
) -> bool {
    &&& r.pv.len() <= depth
    &&& -(MATE_VALUE as int) <= r.value <= MATE_VALUE as int
    &&& pv_reaches(p, r.pv)
    &&& r.value == lifted_value(eval_spec(f, pv_leaf(p, r.pv)), r.pv.len())
    &&& (r.value == MATE_VALUE || r.value == -(MATE_VALUE as int) ==> r.pv.len() == (
    if is_leaf(p, depth) {
        0nat
    } else {
        1nat
    }))
}

proof fn lemma_search_sound(
    config: SearchConfig,
    p: shakmaty::Chess,
    depth: nat,
    alpha: int,
    beta: int,
    white_to_maximize: bool,
)
    requires
        depth <= MAX_SEARCH_DEPTH,
        collaborators_ok(config.evaluation_function, p, depth),
    ensures
        sound_result(
            config.evaluation_function,
            p,
            depth,
            ab_search_spec(config, p, depth, alpha, beta, white_to_maximize),
        ),
    decreases depth, 1nat, 0nat,
{
    if is_leaf(p, depth) {
    } else {
        lemma_scan_sound(config, p, depth, 0, init_best(white_to_maximize), alpha, beta, white_to_maximize);
    }
}

proof fn lemma_scan_sound(
    config: SearchConfig,
    p: shakmaty::Chess,
    depth: nat,
    i: nat,
    best: SearchResultModel,
    alpha: int,
    beta: int,
    white_to_maximize: bool,
)
    requires
        1 <= depth <= MAX_SEARCH_DEPTH,
        collaborators_ok(config.evaluation_function, p, depth),
        !is_leaf(p, depth),
        i <= legal_moves_of(p).len(),
        best == init_best(white_to_maximize) || sound_result(
            config.evaluation_function,
            p,
            depth,
            best,
        ),
        best == init_best(white_to_maximize) ==> i < legal_moves_of(p).len(),
    ensures
        sound_result(
            config.evaluation_function,
            p,
            depth,
            ab_moves_spec(config, p, depth, i, best, alpha, beta, white_to_maximize),
        ),
    decreases depth, 0nat, legal_moves_of(p).len() - i,
{
    let f = config.evaluation_function;
    let moves = legal_moves_of(p);
    if i >= moves.len() {
    } else {
        let m = moves[i as int];
        let child_p = after_move(p, m);
        assert(collaborators_ok(f, child_p, (depth - 1) as nat));
        lemma_search_sound(config, child_p, (depth - 1) as nat, alpha, beta, !white_to_maximize);
        let child = ab_search_spec(config, child_p, (depth - 1) as nat, alpha, beta, !white_to_maximize);
        let adjusted = adjust_mate(child.value, child.pv.len());
        let candidate = SearchResultModel { value: adjusted, pv: seq![m] + child.pv };
        assert(candidate.pv[0] == m);
        assert(candidate.pv.skip(1) =~= child.pv);
        assert(legal_moves_of(p).contains(m)) by {
            assert(legal_moves_of(p)[i as int] == m);
        }
        assert(pv_reaches(p, candidate.pv));
        assert(pv_leaf(p, candidate.pv) == pv_leaf(child_p, child.pv));
        assert(candidate.value == lifted_value(eval_spec(f, pv_leaf(p, candidate.pv)), candidate.pv.len()));
        assert(sound_result(f, p, depth, candidate)) by {
            if adjusted == MATE_VALUE {
                assert(child.value == MATE_VALUE && child.pv.len() == 0);
                assert(candidate.pv.len() == 1);
            } else if adjusted == -(MATE_VALUE as int) {
                assert(child.value == -(MATE_VALUE as int) && child.pv.len() == 0);
                assert(candidate.pv.len() == 1);
            }
        }
        if best == init_best(white_to_maximize) {
            assert(improves(white_to_maximize, adjusted, best.value));
        }
        let new_best = if improves(white_to_maximize, adjusted, best.value) {
            candidate
        } else {
            best
        };
        assert(sound_result(f, p, depth, new_best));
        let new_alpha = if white_to_maximize && new_best.value > alpha {
            new_best.value
        } else {
            alpha
        };
        let new_beta = if !white_to_maximize && new_best.value < beta {
            new_best.value
        } else {
            beta
        };
        if new_beta <= new_alpha {
        } else {
            lemma_scan_sound(config, p, depth, i + 1, new_best, new_alpha, new_beta, white_to_maximize);
        }
    }
}

/// The unpruned scan: like the alpha-beta scan of the moves of `p` from
/// index `i` on, but with no window and no cutoff — every move is explored.
pub open spec fn minimax_moves_spec(
    config: SearchConfig,
    p: shakmaty::Chess,
    depth: nat,
    i: nat,
    best: SearchResultModel,
    white_to_maximize: bool,
) -> SearchResultModel
    decreases depth, 0nat, legal_moves_of(p).len() - i,
{
    let moves = legal_moves_of(p);
    if i >= moves.len() || depth == 0 {
        best
    } else {
        let m = moves[i as int];
        let child = minimax_spec(config, after_move(p, m), (depth - 1) as nat, !white_to_maximize);
        let adjusted = adjust_mate(child.value, child.pv.len());
        let new_best = if improves(white_to_maximize, adjusted, best.value) {
            SearchResultModel { value: adjusted, pv: seq![m] + child.pv }
        } else {
            best
        };
        minimax_moves_spec(config, p, depth, i + 1, new_best, white_to_maximize)
    }
}

/// Full depth-limited minimax, the reference the pruned search is held to:
/// the same leaves, the same adjustment, the same tie-break, no pruning.
pub open spec fn minimax_spec(
    config: SearchConfig,
    p: shakmaty::Chess,
    depth: nat,
    white_to_maximize: bool,
) -> SearchResultModel
    decreases depth, 1nat, 0nat,
{
    if is_leaf(p, depth) {
        leaf_result(config, p)
    } else {
        minimax_moves_spec(config, p, depth, 0, init_best(white_to_maximize), white_to_maximize)
    }
}

/// `a` is at least as good as `b` for the side choosing.
pub open spec fn no_worse(white_to_maximize: bool, a: int, b: int) -> bool {
    if white_to_maximize {
        a >= b
    } else {
        a <= b
    }
}

proof fn lemma_minimax_scan_sound(
    config: SearchConfig,
    p: shakmaty::Chess,
    depth: nat,
    i: nat,
    best: SearchResultModel,
    white_to_maximize: bool,
)
    requires
        1 <= depth <= MAX_SEARCH_DEPTH,
        collaborators_ok(config.evaluation_function, p, depth),
        !is_leaf(p, depth),
        i <= legal_moves_of(p).len(),
        best == init_best(white_to_maximize) || sound_result(
            config.evaluation_function,
            p,
            depth,
            best,
        ),
        best == init_best(white_to_maximize) ==> i < legal_moves_of(p).len(),
    ensures
        sound_result(
            config.evaluation_function,
            p,
            depth,
            minimax_moves_spec(config, p, depth, i, best, white_to_maximize),
        ),
    decreases depth, 0nat, legal_moves_of(p).len() - i,
{
    let f = config.evaluation_function;
    let moves = legal_moves_of(p);
    if i >= moves.len() {
    } else {
        let m = moves[i as int];
        let child_p = after_move(p, m);
        assert(collaborators_ok(f, child_p, (depth - 1) as nat));
        lemma_minimax_sound(config, child_p, (depth - 1) as nat, !white_to_maximize);
        let child = minimax_spec(config, child_p, (depth - 1) as nat, !white_to_maximize);
        let adjusted = adjust_mate(child.value, child.pv.len());
        let candidate = SearchResultModel { value: adjusted, pv: seq![m] + child.pv };
        assert(candidate.pv[0] == m);
        assert(candidate.pv.skip(1) =~= child.pv);
        assert(legal_moves_of(p).contains(m)) by {
            assert(legal_moves_of(p)[i as int] == m);
        }
        assert(pv_leaf(p, candidate.pv) == pv_leaf(child_p, child.pv));
        assert(sound_result(f, p, depth, candidate)) by {
            if adjusted == MATE_VALUE {
                assert(child.value == MATE_VALUE && child.pv.len() == 0);
            } else if adjusted == -(MATE_VALUE as int) {
                assert(child.value == -(MATE_VALUE as int) && child.pv.len() == 0);
            }
        }
        if best == init_best(white_to_maximize) {
            assert(improves(white_to_maximize, adjusted, best.value));
        }
        let new_best = if improves(white_to_maximize, adjusted, best.value) {
            candidate
        } else {
            best
        };
        lemma_minimax_scan_sound(config, p, depth, i + 1, new_best, white_to_maximize);
    }
}

proof fn lemma_minimax_sound(
    config: SearchConfig,
    p: shakmaty::Chess,
    depth: nat,
    white_to_maximize: bool,
)
    requires
        depth <= MAX_SEARCH_DEPTH,
        collaborators_ok(config.evaluation_function, p, depth),
    ensures
        sound_result(
            config.evaluation_function,
            p,
            depth,
            minimax_spec(config, p, depth, white_to_maximize),
        ),
    decreases depth, 1nat, 0nat,
{
    if is_leaf(p, depth) {
    } else {
        lemma_minimax_scan_sound(config, p, depth, 0, init_best(white_to_maximize), white_to_maximize);
    }
}

/// The unpruned scan never worsens what it already holds.
proof fn lemma_minimax_extends(
    config: SearchConfig,
    p: shakmaty::Chess,
    depth: nat,
    i: nat,
    best: SearchResultModel,
    white_to_maximize: bool,
)
    requires
        i <= legal_moves_of(p).len(),
    ensures
        no_worse(
            white_to_maximize,
            minimax_moves_spec(config, p, depth, i, best, white_to_maximize).value,
            best.value,
        ),
    decreases legal_moves_of(p).len() - i,
{
    let moves = legal_moves_of(p);
    if i >= moves.len() || depth == 0 {
    } else {
        let m = moves[i as int];
        let child = minimax_spec(config, after_move(p, m), (depth - 1) as nat, !white_to_maximize);
        let adjusted = adjust_mate(child.value, child.pv.len());
        let new_best = if improves(white_to_maximize, adjusted, best.value) {
            SearchResultModel { value: adjusted, pv: seq![m] + child.pv }
        } else {
            best
        };
        lemma_minimax_extends(config, p, depth, i + 1, new_best, white_to_maximize);
    }
}

/// Two results a search of the same node can stand behind compare the same
/// way after the mate-distance adjustment as before it: the adjustment moves
/// a bare mate score by at most the pinned line length, one ply, which never
/// crosses any other value in the band.
proof fn lemma_adjust_ordered(
    f: EvaluationFunction,
    p: shakmaty::Chess,
    depth: nat,
    a: SearchResultModel,
    b: SearchResultModel,
)
    requires
        sound_result(f, p, depth, a),
        sound_result(f, p, depth, b),
    ensures
        a.value == b.value ==> adjust_mate(a.value, a.pv.len()) == adjust_mate(b.value, b.pv.len()),
        a.value <= b.value ==> adjust_mate(a.value, a.pv.len()) <= adjust_mate(b.value, b.pv.len()),
        -(MATE_VALUE as int) <= adjust_mate(a.value, a.pv.len()) <= MATE_VALUE as int,
{
}

/// The heart of pruning correctness, by induction over the tree: against the
/// unpruned value `m` of the same node, the pruned search with window
/// `(alpha, beta)` answers exactly `m` when `m` lies inside the window, and
/// a value on `m`'s side of the window bound it crossed otherwise.
proof fn lemma_ab_exact(
    config: SearchConfig,
    p: shakmaty::Chess,
    depth: nat,
    alpha: int,
    beta: int,
    white_to_maximize: bool,
)
    requires
        depth <= MAX_SEARCH_DEPTH,
        collaborators_ok(config.evaluation_function, p, depth),
        i64::MIN as int <= alpha < beta <= i64::MAX as int,
    ensures
        ({
            let r = ab_search_spec(config, p, depth, alpha, beta, white_to_maximize);
            let m = minimax_spec(config, p, depth, white_to_maximize);
            &&& (m.value <= alpha ==> m.value <= r.value <= alpha)
            &&& (alpha < m.value < beta ==> r.value == m.value)
            &&& (m.value >= beta ==> beta <= r.value <= m.value)
        }),
    decreases depth, 1nat, 0nat,
{
    if is_leaf(p, depth) {
    } else {
        lemma_ab_scan_exact(
            config,
            p,
            depth,
            0,
            init_best(white_to_maximize),
            init_best(white_to_maximize),
            alpha,
            beta,
            alpha,
            beta,
            white_to_maximize,
        );
    }
}

proof fn lemma_ab_scan_exact(
    config: SearchConfig,
    p: shakmaty::Chess,
    depth: nat,
    i: nat,
    best_r: SearchResultModel,
    best_m: SearchResultModel,
    alpha0: int,
    beta0: int,
    alpha: int,
    beta: int,
    white_to_maximize: bool,
)
    requires
        1 <= depth <= MAX_SEARCH_DEPTH,
        collaborators_ok(config.evaluation_function, p, depth),
        !is_leaf(p, depth),
        i <= legal_moves_of(p).len(),
        i64::MIN as int <= alpha0 < beta0 <= i64::MAX as int,
        white_to_maximize ==> beta == beta0 && alpha == (
        if best_r.value > alpha0 {
            best_r.value
        } else {
            alpha0
        }),
        !white_to_maximize ==> alpha == alpha0 && beta == (
        if best_r.value < beta0 {
            best_r.value
        } else {
            beta0
        }),
        alpha < beta,
        (best_r == init_best(white_to_maximize) && best_m == init_best(white_to_maximize) && i
            < legal_moves_of(p).len()) || (sound_result(config.evaluation_function, p, depth, best_r)
            && sound_result(config.evaluation_function, p, depth, best_m) && no_worse(
            white_to_maximize,
            best_r.value,
            best_m.value,
        ) && (white_to_maximize ==> (best_r.value > alpha0 ==> best_r.value == best_m.value)) && (
        !white_to_maximize ==> (best_r.value < beta0 ==> best_r.value == best_m.value))),
    ensures
        ({
            let r = ab_moves_spec(config, p, depth, i, best_r, alpha, beta, white_to_maximize);
            let m = minimax_moves_spec(config, p, depth, i, best_m, white_to_maximize);
            &&& (m.value <= alpha0 ==> m.value <= r.value <= alpha0)
            &&& (alpha0 < m.value < beta0 ==> r.value == m.value)
            &&& (m.value >= beta0 ==> beta0 <= r.value <= m.value)
        }),
    decreases depth, 0nat, legal_moves_of(p).len() - i,
{
    let f = config.evaluation_function;
    let moves = legal_moves_of(p);
    if i >= moves.len() {
    } else {
        let m = moves[i as int];
        let child_p = after_move(p, m);
        assert(collaborators_ok(f, child_p, (depth - 1) as nat));
        lemma_search_sound(config, child_p, (depth - 1) as nat, alpha, beta, !white_to_maximize);
        lemma_minimax_sound(config, child_p, (depth - 1) as nat, !white_to_maximize);
        lemma_ab_exact(config, child_p, (depth - 1) as nat, alpha, beta, !white_to_maximize);
        let rc = ab_search_spec(config, child_p, (depth - 1) as nat, alpha, beta, !white_to_maximize);
        let mc = minimax_spec(config, child_p, (depth - 1) as nat, !white_to_maximize);
        lemma_adjust_ordered(f, child_p, (depth - 1) as nat, rc, mc);
        lemma_adjust_ordered(f, child_p, (depth - 1) as nat, mc, rc);
        let ar = adjust_mate(rc.value, rc.pv.len());
        let am = adjust_mate(mc.value, mc.pv.len());
        let cand_r = SearchResultModel { value: ar, pv: seq![m] + rc.pv };
        let cand_m = SearchResultModel { value: am, pv: seq![m] + mc.pv };
        let new_best_r = if improves(white_to_maximize, ar, best_r.value) {
            cand_r
        } else {
            best_r
        };
        let new_best_m = if improves(white_to_maximize, am, best_m.value) {
            cand_m
        } else {
            best_m
        };
        // The candidates compare in one of three ways: identically adjusted,
        // both at or past the near bound, or both at or past the far bound.
        assert({
            ||| ar == am
            ||| (white_to_maximize && am <= ar <= alpha) || (!white_to_maximize && beta <= ar <= am)
            ||| (white_to_maximize && beta0 <= ar <= am) || (!white_to_maximize && am <= ar
                <= alpha0)
        });
        // Soundness of the new bests, for the recursive step.
        assert(legal_moves_of(p).contains(m)) by {
            assert(legal_moves_of(p)[i as int] == m);
        }
        assert(cand_r.pv.skip(1) =~= rc.pv);
        assert(cand_m.pv.skip(1) =~= mc.pv);
        assert(pv_leaf(p, cand_r.pv) == pv_leaf(child_p, rc.pv));
        assert(pv_leaf(p, cand_m.pv) == pv_leaf(child_p, mc.pv));
        assert(sound_result(f, p, depth, cand_r)) by {
            if ar == MATE_VALUE {
                assert(rc.value == MATE_VALUE && rc.pv.len() == 0);
            } else if ar == -(MATE_VALUE as int) {
                assert(rc.value == -(MATE_VALUE as int) && rc.pv.len() == 0);
            }
        }
        assert(sound_result(f, p, depth, cand_m)) by {
            if am == MATE_VALUE {
                assert(mc.value == MATE_VALUE && mc.pv.len() == 0);
            } else if am == -(MATE_VALUE as int) {
                assert(mc.value == -(MATE_VALUE as int) && mc.pv.len() == 0);
            }
        }
        assert(sound_result(f, p, depth, new_best_r));
        assert(sound_result(f, p, depth, new_best_m));
        let new_alpha = if white_to_maximize && new_best_r.value > alpha {
            new_best_r.value
        } else {
            alpha
        };
        let new_beta = if !white_to_maximize && new_best_r.value < beta {
            new_best_r.value
        } else {
            beta
        };
        assert(minimax_moves_spec(config, p, depth, i, best_m, white_to_maximize)
            == minimax_moves_spec(config, p, depth, i + 1, new_best_m, white_to_maximize));
        if new_beta <= new_alpha {
            // A cutoff: the pruned scan stops with a result at or past the
            // far bound; the unpruned one can only confirm it from the same
            // side.
            lemma_minimax_extends(config, p, depth, i + 1, new_best_m, white_to_maximize);
        } else {
            lemma_ab_scan_exact(
                config,
                p,
                depth,
                i + 1,
                new_best_r,
                new_best_m,
                alpha0,
                beta0,
                new_alpha,
                new_beta,
                white_to_maximize,
            );
        }
    }
}

/// Pruning is invisible in the answer: at the root, with its full window,
/// the alpha-beta search reports exactly the value of the unpruned minimax
/// search over the same tree, under the collaborators' contract.
pub proof fn lemma_pruning_reports_minimax_value(
    config: SearchConfig,
    p: shakmaty::Chess,
    depth: nat,
)
    requires
        depth <= MAX_SEARCH_DEPTH,
        collaborators_ok(config.evaluation_function, p, depth),
    ensures
        ab_root_spec(config, p, depth).value == minimax_spec(
            config,
            p,
            depth,
            crate::game::white_to_move(p),
        ).value,
{
    let white = crate::game::white_to_move(p);
    lemma_minimax_sound(config, p, depth, white);
    lemma_ab_exact(config, p, depth, i64::MIN as int, i64::MAX as int, white);
}

/// The principal variation is a legal line from the root, and the root's
/// score is exactly the static evaluation of the position at its end, lifted
/// back through the mate-distance adjustment — provided the collaborators
/// keep their contract: total move generation on undecided positions and
/// evaluations within the mate band.
pub proof fn lemma_pv_round_trip(config: SearchConfig, p: shakmaty::Chess, depth: nat)
    requires
        depth <= MAX_SEARCH_DEPTH,
        collaborators_ok(config.evaluation_function, p, depth),
    ensures
        pv_reaches(p, ab_root_spec(config, p, depth).pv),
        ab_root_spec(config, p, depth).value == lifted_value(
            eval_spec(config.evaluation_function, pv_leaf(p, ab_root_spec(config, p, depth).pv)),
            ab_root_spec(config, p, depth).pv.len(),
        ),
        ab_root_spec(config, p, depth).pv.len() <= depth,
{
    lemma_search_sound(
        config,
        p,
        depth,
        i64::MIN as int,
        i64::MAX as int,
        crate::game::white_to_move(p),
    );
}

/// At depth zero the search reports the static evaluation of the root and
/// an empty principal variation, whatever the position.
pub proof fn lemma_depth_zero_is_static_evaluation(config: SearchConfig, p: shakmaty::Chess)
    ensures
        ab_root_spec(config, p, 0) == leaf_result(config, p),
        ab_root_spec(config, p, 0).value == eval_spec(config.evaluation_function, p),
        ab_root_spec(config, p, 0).pv.len() == 0,
{
}

/// A move that decides the game for white at once scores strictly better,
/// in the parent's comparison of its children, than one whose subtree only
/// promises a forced mate further down: the immediate win keeps the full
/// `MATE_VALUE`, the longer line gives up its length.
pub proof fn lemma_nearer_mate_scores_better_for_white(
    config: SearchConfig,
    quick_win: shakmaty::Chess,
    quick_depth: nat,
    slower_line: SearchResultModel,
)
    requires
        status_of(quick_win) == PositionStatus::WhiteWins,
        slower_line.value == MATE_VALUE,
        slower_line.pv.len() >= 1,
    ensures
        ({
            let quick = minimax_spec(config, quick_win, quick_depth, false);
            adjust_mate(quick.value, quick.pv.len()) > adjust_mate(
                slower_line.value,
                slower_line.pv.len(),
            )
        }),
{
}

/// The mirror for black: a move that decides the game for black at once
/// scores strictly lower — better for the minimizing side — than one whose
/// subtree only promises a forced mate further down.
pub proof fn lemma_nearer_mate_scores_better_for_black(
    config: SearchConfig,
    quick_win: shakmaty::Chess,
    quick_depth: nat,
    slower_line: SearchResultModel,
)
    requires
        status_of(quick_win) == PositionStatus::BlackWins,
        slower_line.value == -(MATE_VALUE as int),
        slower_line.pv.len() >= 1,
    ensures
        ({
            let quick = minimax_spec(config, quick_win, quick_depth, true);
            adjust_mate(quick.value, quick.pv.len()) < adjust_mate(
                slower_line.value,
                slower_line.pv.len(),
            )
        }),
{
}

} // verus!
