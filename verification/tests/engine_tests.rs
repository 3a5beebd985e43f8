use blocky::engine::{Engine, EngineError};
use blocky::search::alpha_beta_iterative_deepening::AlphaBetaIterativeDeepeningSearch;
use blocky::search::alphabeta::AlphaBetaSearch;
use blocky::search::{EvaluationFunction, MoveGenerator, Search, SearchConfig, SearchResult};
use shakmaty::fen::Fen;
use shakmaty::{CastlingMode, Chess};

fn engine_config() -> SearchConfig {
    SearchConfig {
        evaluation_function: EvaluationFunction::MaterialMobility,
        move_generator: MoveGenerator::Basic,
    }
}

fn get_engine() -> Engine<AlphaBetaSearch> {
    Engine::new(AlphaBetaSearch::new(engine_config()))
}

#[test]
fn test_engine_creation() {
    let engine = get_engine();
    assert!(!engine.get_full_name().is_empty());
    assert!(!engine.get_author().is_empty());
}

#[test]
fn test_handle_go_with_default_depth() {
    let mut engine = get_engine();
    engine.set_default_position();
    let _ = engine.go(4);
}

#[test]
fn test_handle_go_with_custom_depth() {
    let mut engine = get_engine();
    engine.set_default_position();
    let _ = engine.go(4);
}

#[test]
fn test_position_handling() {
    let mut engine = get_engine();
    engine.set_default_position();
    assert_eq!(engine.make_uci_move("e2e4"), Ok(()));
}

#[test]
fn test_invalid_fen_is_reported_not_fatal() {
    let mut engine = get_engine();
    assert_eq!(
        engine.set_position_from_fen("this is no fen"),
        Err(EngineError::InvalidFen)
    );
    // The engine still answers afterwards.
    let result = engine.go(1);
    assert!(!result.principal_variation.is_empty());
}

#[test]
fn test_illegal_uci_move_is_reported_not_fatal() {
    let mut engine = get_engine();
    engine.set_default_position();
    assert_eq!(engine.make_uci_move("e2e5"), Err(EngineError::IllegalUciMove));
    assert_eq!(engine.make_uci_move("not a move"), Err(EngineError::IllegalUciMove));
    assert_eq!(engine.make_uci_move("e2e4"), Ok(()));
}

#[test]
fn test_set_position_from_fen_replaces_the_board() {
    let mut engine = get_engine();
    assert_eq!(
        engine.set_position_from_fen("k7/p7/8/8/8/8/8/QK6 b - - 0 1"),
        Ok(())
    );
    let result = engine.go(0);
    assert_eq!(result.value, 0);
}

#[test]
fn test_iterative_deepening_matches_single_shot() {
    let fen: Fen = "r4r1k/b1p3pp/p2P2p1/1p6/1P4R1/1B5Q/Pq3P2/R5K1 w - - 0 1"
        .parse()
        .unwrap();
    let position: Chess = fen.into_position(CastlingMode::Standard).unwrap();

    let single = AlphaBetaSearch::new(engine_config()).search(&position, 3);
    let driver = AlphaBetaIterativeDeepeningSearch::new(engine_config()).search(&position, 3);

    assert_eq!(single.value, driver.value);
    assert_eq!(single.principal_variation, driver.principal_variation);
}

#[test]
fn test_iterative_deepening_at_depth_zero_is_the_static_evaluation() {
    let position = Chess::default();

    let driver = AlphaBetaIterativeDeepeningSearch::new(engine_config()).search(&position, 0);

    // Material and mobility are even at the start.
    assert_eq!(driver.value, 0);
    assert!(driver.principal_variation.is_empty());
}

#[test]
fn test_get_mate_in_classifies_scores() {
    let mate_now = SearchResult { value: 1000000, principal_variation: Vec::new() };
    assert_eq!(mate_now.get_mate_in(), Some(0));
    assert!(mate_now.is_mate());
    assert!(mate_now.is_white_winning());
    assert!(!mate_now.is_black_winning());

    let mate_soon = SearchResult { value: 999990, principal_variation: Vec::new() };
    assert_eq!(mate_soon.get_mate_in(), Some(5));

    let black_mates = SearchResult { value: -999999, principal_variation: Vec::new() };
    assert_eq!(black_mates.get_mate_in(), Some(0));
    assert!(black_mates.is_black_winning());

    let heuristic = SearchResult { value: 999900, principal_variation: Vec::new() };
    assert_eq!(heuristic.get_mate_in(), None);
    assert!(!heuristic.is_mate());

    let quiet = SearchResult { value: 42, principal_variation: Vec::new() };
    assert_eq!(quiet.get_mate_in(), None);
}
