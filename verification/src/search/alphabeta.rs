use vstd::prelude::*;

use crate::evaluation::{eval_spec, evaluate};
use crate::game::{
    after_move, legal_moves_of, position_status, status_of, turn_is_white, white_to_move,
    PositionStatus,
};
use crate::movegen::basic_movegen::basic_movegen;
use crate::search::{
    MoveGenerator, Search, SearchConfig, SearchResult, SearchResultModel, Value,
};
use crate::utils::consts::{MATE_VALUE, MAX_SEARCH_DEPTH};

verus! {

pub const INITIAL_ALPHA: Value = i64::MIN;

pub const INITIAL_BETA: Value = i64::MAX;

/// The mate-distance adjustment a parent applies to a child's score: an
/// undifferentiated "forced mate below" signal (exactly `MATE_VALUE` or its
/// negation) is pushed towards zero by the length of the line that reaches
/// it, so nearer wins and farther losses score better.
pub open spec fn adjust_mate(value: int, pv_len: nat) -> int {
    if value == MATE_VALUE {
        value - pv_len
    } else if value == -(MATE_VALUE as int) {
        value + pv_len
    } else {
        value
    }
}

/// A node is scored statically when the depth budget is spent or the game is
/// decided.
pub open spec fn is_leaf(p: shakmaty::Chess, depth: nat) -> bool {
    depth == 0 || status_of(p) != PositionStatus::Ongoing
}

/// The result at a leaf: the static evaluation, with nothing to play.
pub open spec fn leaf_result(config: SearchConfig, p: shakmaty::Chess) -> SearchResultModel {
    SearchResultModel { value: eval_spec(config.evaluation_function, p), pv: Seq::empty() }
}

/// The best-so-far a node starts from: unbeatably bad for the side choosing.
pub open spec fn init_best(white_to_maximize: bool) -> SearchResultModel {
    SearchResultModel {
        value: if white_to_maximize {
            INITIAL_ALPHA as int
        } else {
            INITIAL_BETA as int
        },
        pv: Seq::empty(),
    }
}

/// Whether `candidate` strictly beats `best` for the side choosing; ties keep
/// the earlier move.
pub open spec fn improves(white_to_maximize: bool, candidate: int, best: int) -> bool {
    if white_to_maximize {
        candidate > best
    } else {
        candidate < best
    }
}

/// The alpha-beta scan of the moves of `p` from index `i` on, carrying the
/// best result found so far and the current window; it stops early as soon as
/// the window is empty.
pub open spec fn ab_moves_spec(
    config: SearchConfig,
    p: shakmaty::Chess,
    depth: nat,
    i: nat,
    best: SearchResultModel,
    alpha: int,
    beta: int,
    white_to_maximize: bool,
) -> SearchResultModel
    decreases depth, 0nat, legal_moves_of(p).len() - i,
{
    let moves = legal_moves_of(p);
    if i >= moves.len() || depth == 0 {
        best
    } else {
        let m = moves[i as int];
        let child = ab_search_spec(
            config,
            after_move(p, m),
            (depth - 1) as nat,
            alpha,
            beta,
            !white_to_maximize,
        );
        let adjusted = adjust_mate(child.value, child.pv.len());
        let new_best = if improves(white_to_maximize, adjusted, best.value) {
            SearchResultModel { value: adjusted, pv: seq![m] + child.pv }
        } else {
            best
        };
        let new_alpha = if white_to_maximize && new_best.value > alpha {
            new_best.value
        } else {
            alpha
        };
        let new_beta = if !white_to_maximize && new_best.value < beta {
            new_best.value
        } else {
            beta
        };
        if new_beta <= new_alpha {
            new_best
        } else {
            ab_moves_spec(config, p, depth, i + 1, new_best, new_alpha, new_beta, white_to_maximize)
        }
    }
}

/// The depth-limited alpha-beta search: what `AlphaBetaSearch` computes at
/// every node for a given window.
pub open spec fn ab_search_spec(
    config: SearchConfig,
    p: shakmaty::Chess,
    depth: nat,
    alpha: int,
    beta: int,
    white_to_maximize: bool,
) -> SearchResultModel
    decreases depth, 1nat, 0nat,
{
    if is_leaf(p, depth) {
        leaf_result(config, p)
    } else {
        ab_moves_spec(config, p, depth, 0, init_best(white_to_maximize), alpha, beta, white_to_maximize)
    }
}

/// The search as started at the root: a full window, maximizing for the side
/// to move being white.
pub open spec fn ab_root_spec(config: SearchConfig, p: shakmaty::Chess, depth: nat) -> SearchResultModel {
    ab_search_spec(config, p, depth, INITIAL_ALPHA as int, INITIAL_BETA as int, white_to_move(p))
}

/// Depth-limited minimax with alpha-beta pruning.
pub struct AlphaBetaSearch {
    pub config: SearchConfig,
}

impl AlphaBetaSearch {
    pub fn new(config: SearchConfig) -> (r: Self)
        ensures
            r.config == config,
    {
        Self { config }
    }
}

impl Search for AlphaBetaSearch {
    open spec fn spec_config(&self) -> SearchConfig {
        self.config
    }

    fn search(&self, initial_position: &shakmaty::Chess, depth: usize) -> (r: SearchResult) {
        let white = turn_is_white(initial_position);
        self.alpha_beta_search(initial_position, depth, INITIAL_ALPHA, INITIAL_BETA, white)
    }
}

impl AlphaBetaSearch {
    /// One node of the recursion: evaluate a leaf, otherwise scan the moves
    /// in generator order, thread the window through, and stop at a cutoff.
    fn alpha_beta_search(
        &self,
        position: &shakmaty::Chess,
        depth: usize,
        alpha: Value,
        beta: Value,
        white_to_maximize: bool,
    ) -> (r: SearchResult)
        requires
            depth <= MAX_SEARCH_DEPTH,
        ensures
            r@ == ab_search_spec(
                self.config,
                *position,
                depth as nat,
                alpha as int,
                beta as int,
                white_to_maximize,
            ),
            r.principal_variation@.len() <= depth,
        decreases depth,
    {
        let status = position_status(position);
        if depth == 0 || !matches!(status, PositionStatus::Ongoing) {
            return SearchResult {
                value: evaluate(self.config.evaluation_function, position),
                principal_variation: Vec::new(),
            };
        }
        let moves = match self.config.move_generator {
            MoveGenerator::Basic => basic_movegen(position),
        };
        let ghost target = ab_moves_spec(
            self.config,
            *position,
            depth as nat,
            0,
            init_best(white_to_maximize),
            alpha as int,
            beta as int,
            white_to_maximize,
        );
        let mut best = SearchResult {
            value: if white_to_maximize {
                INITIAL_ALPHA
            } else {
                INITIAL_BETA
            },
            principal_variation: Vec::new(),
        };
        let mut cur_alpha = alpha;
        let mut cur_beta = beta;
        let mut cut = false;
        let mut i: usize = 0;
        while i < moves.len() && !cut
            invariant
                1 <= depth <= MAX_SEARCH_DEPTH,
                status_of(*position) == PositionStatus::Ongoing,
                moves@ == legal_moves_of(*position),
                i <= moves.len(),
                best.principal_variation@.len() <= depth,
                cut ==> target == best@,
                !cut ==> target == ab_moves_spec(
                    self.config,
                    *position,
                    depth as nat,
                    i as nat,
                    best@,
                    cur_alpha as int,
                    cur_beta as int,
                    white_to_maximize,
                ),
            decreases moves.len() - i,
        {
            let ghost prev_i = i as nat;
            let ghost prev_best = best@;
            let ghost prev_alpha = cur_alpha as int;
            let ghost prev_beta = cur_beta as int;
            let m = moves[i];
            proof {
                assert(legal_moves_of(*position).contains(m)) by {
                    assert(legal_moves_of(*position)[i as int] == m);
                }
            }
            let child_position = crate::game::play_move(position, &m);
            let mut child = self.alpha_beta_search(
                &child_position,
                depth - 1,
                cur_alpha,
                cur_beta,
                !white_to_maximize,
            );
            let ghost child_model = child@;
            let pv_len = child.principal_variation.len();
            if child.value == MATE_VALUE {
                child.value = child.value - pv_len as i64;
            } else if child.value == -MATE_VALUE {
                child.value = child.value + pv_len as i64;
            }
            proof {
                assert(child@.value == adjust_mate(child_model.value, child_model.pv.len()));
            }
            let ghost adjusted_child = child@;
            let replaces = if white_to_maximize {
                child.value > best.value
            } else {
                child.value < best.value
            };
            if replaces {
                best = child;
                best.principal_variation.insert(0, m);
                proof {
                    assert(best.principal_variation@ =~= seq![m] + adjusted_child.pv);
                }
            }
            if white_to_maximize {
                if best.value > cur_alpha {
                    cur_alpha = best.value;
                }
            } else {
                if best.value < cur_beta {
                    cur_beta = best.value;
                }
            }
            if cur_beta <= cur_alpha {
                cut = true;
            }
            i = i + 1;
            proof {
                let spec_child = ab_search_spec(
                    self.config,
                    after_move(*position, m),
                    (depth - 1) as nat,
                    prev_alpha,
                    prev_beta,
                    !white_to_maximize,
                );
                assert(spec_child == child_model);
                let spec_new_best = if improves(
                    white_to_maximize,
                    adjust_mate(spec_child.value, spec_child.pv.len()),
                    prev_best.value,
                ) {
                    SearchResultModel {
                        value: adjust_mate(spec_child.value, spec_child.pv.len()),
                        pv: seq![m] + spec_child.pv,
                    }
                } else {
                    prev_best
                };
                assert(best@.pv =~= spec_new_best.pv);
                assert(best@ == spec_new_best);
                assert(ab_moves_spec(
                    self.config,
                    *position,
                    depth as nat,
                    prev_i,
                    prev_best,
                    prev_alpha,
                    prev_beta,
                    white_to_maximize,
                ) == if cut {
                    best@
                } else {
                    ab_moves_spec(
                        self.config,
                        *position,
                        depth as nat,
                        i as nat,
                        best@,
                        cur_alpha as int,
                        cur_beta as int,
                        white_to_maximize,
                    )
                });
            }
        }
        best
    }
}

} // verus!
