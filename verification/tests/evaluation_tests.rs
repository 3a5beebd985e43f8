use blocky::evaluation::material_evaluation::material_evaluation;
use blocky::evaluation::material_mobility_evaluation::material_mobility_evaluation;
use blocky::evaluation::zero_evaluation::zero_evaluation;
use blocky::evaluation::zero_evalution::zero_evalution;
use blocky::evaluation::{get_number_of_moves_for_black, get_number_of_moves_for_white};
use shakmaty::fen::Fen;
use shakmaty::{CastlingMode, Chess};

fn position_from(fen: &str) -> Chess {
    let fen: Fen = fen.parse().unwrap();
    fen.into_position(CastlingMode::Standard).unwrap()
}

#[test]
fn mod_test_search_returns_result_when_depth_is_1() {
    let position = position_from("rnbqkbnr/pppppppp/8/8/8/8/PPPPPPPP/RNBQKBNR w KQkq - 0 1");

    let result = get_number_of_moves_for_white(&position);

    assert_eq!(result, 20);
}

#[test]
fn test_mobility_counts_the_side_to_move() {
    let position = Chess::default();

    assert_eq!(get_number_of_moves_for_white(&position), 20);
    assert_eq!(get_number_of_moves_for_black(&position), 20);
}

#[test]
fn test_material_evaluation_counts_the_board() {
    // White queen against one black pawn: 900 - 100.
    let position = position_from("k7/p7/8/8/8/8/8/QK6 b - - 0 1");

    assert_eq!(material_evaluation(&position), 800);
}

#[test]
fn test_material_evaluation_is_even_at_the_start() {
    let position = Chess::default();

    assert_eq!(material_evaluation(&position), 0);
}

#[test]
fn test_evaluations_score_checkmate_as_mate_value() {
    // Black is checkmated on the back rank.
    let position = position_from("k7/8/8/8/8/8/R7/1R5K b - - 0 1");

    assert_eq!(zero_evaluation(&position), 1000000);
    assert_eq!(zero_evalution(&position), 1000000);
    assert_eq!(material_evaluation(&position), 1000000);
    assert_eq!(material_mobility_evaluation(&position), 1000000);
}

#[test]
fn test_evaluations_score_stalemate_as_draw() {
    // Black to move has no moves and is not in check.
    let position = position_from("k7/8/1Q6/8/8/8/8/6K1 b - - 0 1");

    assert_eq!(zero_evaluation(&position), 0);
    assert_eq!(zero_evalution(&position), 0);
    assert_eq!(material_evaluation(&position), 0);
    assert_eq!(material_mobility_evaluation(&position), 0);
}

#[test]
fn test_zero_evaluation_is_zero_while_the_game_runs() {
    let position = Chess::default();

    assert_eq!(zero_evaluation(&position), 0);
    assert_eq!(zero_evalution(&position), 0);
}
