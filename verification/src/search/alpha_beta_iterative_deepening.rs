use vstd::prelude::*;

use crate::evaluation::evaluate;
use crate::search::alphabeta::{ab_root_spec, AlphaBetaSearch};
use crate::search::{Search, SearchConfig, SearchResult};
use crate::utils::consts::MAX_SEARCH_DEPTH;

verus! {

/// Runs the alpha-beta search at depths 1 up to the requested one, keeping
/// only the deepest completed result; at depth 0 the root's static
/// evaluation stands.
pub struct AlphaBetaIterativeDeepeningSearch {
    pub config: SearchConfig,
}

impl AlphaBetaIterativeDeepeningSearch {
    pub fn new(config: SearchConfig) -> (r: Self)
        ensures
            r.config == config,
    {
        Self { config }
    }
}

impl Search for AlphaBetaIterativeDeepeningSearch {
    open spec fn spec_config(&self) -> SearchConfig {
        self.config
    }

    fn search(&self, initial_position: &shakmaty::Chess, depth: usize) -> (r: SearchResult) {
        let mut search_result = SearchResult {
            value: evaluate(self.config.evaluation_function, initial_position),
            principal_variation: Vec::new(),
        };
        proof {
            assert(search_result@ == ab_root_spec(self.config, *initial_position, 0));
        }
        let searcher = AlphaBetaSearch::new(self.config);
        let mut d: usize = 1;
        while d <= depth
            invariant
                depth <= MAX_SEARCH_DEPTH,
                1 <= d <= depth + 1,
                searcher.config == self.config,
                search_result@ == ab_root_spec(self.config, *initial_position, (d - 1) as nat),
                search_result.principal_variation@.len() <= d - 1,
            decreases depth + 1 - d,
        {
            search_result = searcher.search(initial_position, d);
            d = d + 1;
        }
        search_result
    }
}

} // verus!
