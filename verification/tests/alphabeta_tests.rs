use blocky::search::alphabeta::AlphaBetaSearch;
use blocky::search::{EvaluationFunction, MoveGenerator, Search, SearchConfig};
use shakmaty::fen::Fen;
use shakmaty::{CastlingMode, Chess};

fn basic_config() -> SearchConfig {
    SearchConfig {
        evaluation_function: EvaluationFunction::ZeroOutcome,
        move_generator: MoveGenerator::Basic,
    }
}

#[test]
fn alphabeta_test_search_returns_result_when_depth_is_1() {
    let position = Chess::default();
    let depth = 1;

    let result = AlphaBetaSearch { config: basic_config() }.search(&position, depth);

    assert!(result.principal_variation.len() >= 1);
}

#[test]
fn test_search_solves_mate_in_2_white_to_play_when_depth_is_4() {
    let fen: Fen = "r4r1k/b1p3pp/p2P2p1/1p6/1P4R1/1B5Q/Pq3P2/R5K1 w - - 0 1"
        .parse()
        .unwrap();
    let position: Chess = fen.into_position(CastlingMode::Standard).unwrap();
    let depth = 4;

    let result = AlphaBetaSearch { config: basic_config() }.search(&position, depth);

    assert_eq!(
        result.principal_variation[0]
            .to_uci(CastlingMode::Standard)
            .to_string(),
        "h3h7"
    );
    assert_eq!(
        result.principal_variation[1]
            .to_uci(CastlingMode::Standard)
            .to_string(),
        "h8h7"
    );
    assert_eq!(
        result.principal_variation[2]
            .to_uci(CastlingMode::Standard)
            .to_string(),
        "g4h4"
    );
}

#[test]
fn test_search_solves_mate_in_2_black_to_play_when_depth_is_4() {
    let fen: Fen = "1r2nk2/3n4/pB1P4/2P4p/3Q1P1q/4P1p1/5P2/RR4K1 b - - 0 1"
        .parse()
        .unwrap();
    let position: Chess = fen.into_position(CastlingMode::Standard).unwrap();
    let depth = 4;

    let result = AlphaBetaSearch { config: basic_config() }.search(&position, depth);

    assert_eq!(
        result.principal_variation[0]
            .to_uci(CastlingMode::Standard)
            .to_string(),
        "h4h2"
    );
    assert_eq!(
        result.principal_variation[1]
            .to_uci(CastlingMode::Standard)
            .to_string(),
        "g1f1"
    );
    assert_eq!(
        result.principal_variation[2]
            .to_uci(CastlingMode::Standard)
            .to_string(),
        "h2f2"
    );
}

#[test]
fn test_depth_zero_returns_static_evaluation() {
    let position = Chess::default();

    let result = AlphaBetaSearch { config: basic_config() }.search(&position, 0);

    assert_eq!(result.value, 0);
    assert!(result.principal_variation.is_empty());
}

#[test]
fn test_mate_in_one_outranks_longer_mate() {
    // White mates at once on the back rank; any forced mate found deeper
    // scores less, so the one-ply win keeps the full mate value.
    let fen: Fen = "6k1/5ppp/8/8/8/8/8/K3R3 w - - 0 1".parse().unwrap();
    let position: Chess = fen.into_position(CastlingMode::Standard).unwrap();

    let result = AlphaBetaSearch { config: basic_config() }.search(&position, 4);

    assert_eq!(result.value, 1000000);
    assert_eq!(result.principal_variation.len(), 1);
}
