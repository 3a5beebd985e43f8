pub mod alpha_beta_iterative_deepening;
pub mod alphabeta;
pub mod model;

use vstd::prelude::*;

use crate::search::alphabeta::ab_root_spec;
use crate::utils::consts::{MATE_VALUE, MAX_SEARCH_DEPTH};

verus! {

pub type Value = i64;

/// A mate score is recognised when the value's distance from `MATE_VALUE`
/// stays below this threshold; heuristic scores never come that close.
pub const MATE_VALUE_THRESHOLD: i64 = 100;

/// What one search reports: the score of the best line found, and that line
/// itself, best move first.
pub struct SearchResult {
    pub value: Value,
    pub principal_variation: Vec<shakmaty::Move>,
}

/// The mathematical content of a `SearchResult`.
pub ghost struct SearchResultModel {
    pub value: int,
    pub pv: Seq<shakmaty::Move>,
}

impl View for SearchResult {
    type V = SearchResultModel;

    open spec fn view(&self) -> SearchResultModel {
        SearchResultModel { value: self.value as int, pv: self.principal_variation@ }
    }
}

/// The absolute value of `v`.
pub open spec fn spec_abs(v: int) -> int {
    if v < 0 {
        -v
    } else {
        v
    }
}

/// The "mate in N" classifier: when the score's magnitude lies within
/// `MATE_VALUE_THRESHOLD` of `MATE_VALUE`, half that distance, else `None`.
pub open spec fn spec_mate_in(v: int) -> Option<u64> {
    let diff = spec_abs(spec_abs(v) - MATE_VALUE);
    if diff >= MATE_VALUE_THRESHOLD {
        None
    } else {
        Some((diff / 2) as u64)
    }
}

impl SearchResult {
    pub fn is_white_winning(&self) -> (r: bool)
        ensures
            r == (self.value > 0),
    {
        self.value > 0
    }

    pub fn is_black_winning(&self) -> (r: bool)
        ensures
            r == (self.value < 0),
    {
        self.value < 0
    }

    pub fn is_mate(&self) -> (r: bool)
        requires
            self.value != i64::MIN,
        ensures
            r == spec_mate_in(self.value as int) is Some,
    {
        self.get_mate_in().is_some()
    }

    pub fn get_mate_in(&self) -> (r: Option<u64>)
        requires
            self.value != i64::MIN,
        ensures
            r == spec_mate_in(self.value as int),
    {
        let abs_value: i64 = if self.value < 0 {
            -self.value
        } else {
            self.value
        };
        let diff: i64 = if abs_value >= MATE_VALUE {
            abs_value - MATE_VALUE
        } else {
            MATE_VALUE - abs_value
        };
        if diff >= MATE_VALUE_THRESHOLD {
            None
        } else {
            Some(diff as u64 / 2)
        }
    }
}

/// The static evaluations the engine can search with.
#[derive(Clone, Copy, Debug, PartialEq, Eq, Structural)]
pub enum EvaluationFunction {
    /// Zero for every undecided position (`zero_evaluation`).
    Zero,
    /// Zero for every undecided position, scored from the outcome's winner
    /// (`zero_evalution`).
    ZeroOutcome,
    /// Weighted material balance (`material_evaluation`).
    Material,
    /// Mobility difference on top of outcome scoring
    /// (`material_mobility_evaluation`).
    MaterialMobility,
}

/// The move generators the engine can search with.
#[derive(Clone, Copy, Debug, PartialEq, Eq, Structural)]
pub enum MoveGenerator {
    /// All legal moves in `shakmaty`'s order (`basic_movegen`).
    Basic,
}

/// The two pluggable policies a search is built with, fixed at construction
/// and shared read-only by every recursive call.
#[derive(Clone, Copy, Debug, PartialEq, Eq, Structural)]
pub struct SearchConfig {
    pub evaluation_function: EvaluationFunction,
    pub move_generator: MoveGenerator,
}

/// Builds a search object around a configuration; for callers that pick the
/// algorithm once and hand out ready searches.
pub trait SearchFactory {
    /// The search this factory builds.
    type Built: Search;

    fn build(&self, config: SearchConfig) -> Self::Built;
}

/// One operation: search a position to a fixed depth. Every implementation
/// reports exactly the depth-limited alpha-beta result for its
/// configuration, so two implementations sharing a configuration agree on
/// every position and depth — in particular, the iterative-deepening driver
/// returns what a single direct search at its final depth returns.
pub trait Search {
    /// The configuration the search was built with.
    spec fn spec_config(&self) -> SearchConfig;

    fn search(&self, initial_position: &shakmaty::Chess, depth: usize) -> (r: SearchResult)
        requires
            depth <= MAX_SEARCH_DEPTH,
        ensures
            r@ == ab_root_spec(self.spec_config(), *initial_position, depth as nat),
            r.principal_variation@.len() <= depth,
    ;
}

} // verus!
