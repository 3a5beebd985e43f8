use vstd::prelude::*;

use crate::game::{
    after_move, default_position, parse_fen_position, parse_uci_move, parsed_fen, parsed_uci_move,
    play_move, status_of, white_to_move, PositionStatus,
};
use crate::search::alphabeta::ab_root_spec;
use crate::search::{Search, SearchResult};
use crate::utils::consts::MAX_SEARCH_DEPTH;

verus! {

/// Why a protocol command could not be applied; reported per command, never
/// fatal.
#[derive(Clone, Copy, Debug, PartialEq, Eq, Structural)]
pub enum EngineError {
    /// The position text was not a valid FEN for a playable position.
    InvalidFen,
    /// The move text was malformed or names no legal move here.
    IllegalUciMove,
}

/// A session: the current position and the search algorithm bound to it.
pub struct Engine<S: Search> {
    position: shakmaty::Chess,
    search_algorithm: S,
}

impl<S: Search> Engine<S> {
    pub closed spec fn spec_position(&self) -> shakmaty::Chess {
        self.position
    }

    pub closed spec fn spec_search(&self) -> S {
        self.search_algorithm
    }

    pub fn new(search: S) -> (r: Self)
        ensures
            r.spec_search() == search,
            status_of(r.spec_position()) == PositionStatus::Ongoing,
            white_to_move(r.spec_position()),
    {
        Self { position: default_position(), search_algorithm: search }
    }

    /// Relies on `format!` over two string literals: the engine's name and
    /// version, never empty.
    #[verifier::external_body]
    pub fn get_full_name(&self) -> (r: String)
        ensures
            r@ == "Blocky 0.1.0"@,
    {
        format!("{} {}", "Blocky", "0.1.0")
    }

    /// Relies on `str::to_string`: the author string, unchanged.
    #[verifier::external_body]
    pub fn get_author(&self) -> (r: String)
        ensures
            r@ == "antgarmed"@,
    {
        "antgarmed".to_string()
    }

    pub fn set_default_position(&mut self)
        ensures
            final(self).spec_search() == old(self).spec_search(),
            status_of(final(self).spec_position()) == PositionStatus::Ongoing,
            white_to_move(final(self).spec_position()),
    {
        self.position = default_position();
    }

    pub fn set_position_from_fen(&mut self, fen: &str) -> (r: Result<(), EngineError>)
        ensures
            final(self).spec_search() == old(self).spec_search(),
            match parsed_fen(fen@) {
                Some(p) => r == Ok::<(), EngineError>(()) && final(self).spec_position() == p,
                None => r == Err::<(), EngineError>(EngineError::InvalidFen) && final(self).spec_position()
                    == old(self).spec_position(),
            },
    {
        match parse_fen_position(fen) {
            Some(p) => {
                self.position = p;
                Ok(())
            },
            None => Err(EngineError::InvalidFen),
        }
    }

    pub fn make_uci_move(&mut self, uci_move: &str) -> (r: Result<(), EngineError>)
        ensures
            final(self).spec_search() == old(self).spec_search(),
            match parsed_uci_move(old(self).spec_position(), uci_move@) {
                Some(m) => r == Ok::<(), EngineError>(()) && final(self).spec_position() == after_move(
                    old(self).spec_position(),
                    m,
                ),
                None => r == Err::<(), EngineError>(EngineError::IllegalUciMove)
                    && final(self).spec_position() == old(self).spec_position(),
            },
    {
        match parse_uci_move(&self.position, uci_move) {
            Some(m) => {
                self.position = play_move(&self.position, &m);
                Ok(())
            },
            None => Err(EngineError::IllegalUciMove),
        }
    }

    pub fn go(&self, depth: usize) -> (r: SearchResult)
        requires
            depth <= MAX_SEARCH_DEPTH,
        ensures
            r@ == ab_root_spec(self.spec_search().spec_config(), self.spec_position(), depth as nat),
            r.principal_variation@.len() <= depth,
    {
        self.search_algorithm.search(&self.position, depth)
    }
}

} // verus!
