use vstd::prelude::*;

use super::{
    evaluate_outcome, eval_spec, get_number_of_black_bishops, get_number_of_black_knights,
    get_number_of_black_pawns, get_number_of_black_queens, get_number_of_black_rooks,
    get_number_of_white_bishops, get_number_of_white_knights, get_number_of_white_pawns,
    get_number_of_white_queens, get_number_of_white_rooks,
};
use crate::game::{piece_count_of, position_status, status_of, PositionStatus};
use crate::search::{EvaluationFunction, Value};

verus! {

pub const PAWN_VALUE: Value = 100;

pub const KNIGHT_VALUE: Value = 300;

pub const BISHOP_VALUE: Value = 300;

pub const ROOK_VALUE: Value = 500;

pub const QUEEN_VALUE: Value = 900;

/// The weighted material balance of an undecided position, positive when
/// white has more.
pub open spec fn material_eval_spec(p: shakmaty::Chess) -> int {
    QUEEN_VALUE * (piece_count_of(p, true, 5) - piece_count_of(p, false, 5)) + ROOK_VALUE * (
    piece_count_of(p, true, 4) - piece_count_of(p, false, 4)) + BISHOP_VALUE * (piece_count_of(
        p,
        true,
        3,
    ) - piece_count_of(p, false, 3)) + KNIGHT_VALUE * (piece_count_of(p, true, 2) - piece_count_of(
        p,
        false,
        2,
    )) + PAWN_VALUE * (piece_count_of(p, true, 1) - piece_count_of(p, false, 1))
}

/// Scores a decided position by its outcome, any other by material balance.
pub fn material_evaluation(position: &shakmaty::Chess) -> (r: Value)
    ensures
        r as int == eval_spec(EvaluationFunction::Material, *position),
{
    let status = position_status(position);
    if !matches!(status, PositionStatus::Ongoing) {
        return evaluate_outcome(status);
    }
    QUEEN_VALUE * (get_number_of_white_queens(position) as i64 - get_number_of_black_queens(
        position,
    ) as i64) + ROOK_VALUE * (get_number_of_white_rooks(position) as i64
        - get_number_of_black_rooks(position) as i64) + BISHOP_VALUE * (get_number_of_white_bishops(
        position,
    ) as i64 - get_number_of_black_bishops(position) as i64) + KNIGHT_VALUE * (
    get_number_of_white_knights(position) as i64 - get_number_of_black_knights(position) as i64)
        + PAWN_VALUE * (get_number_of_white_pawns(position) as i64 - get_number_of_black_pawns(
        position,
    ) as i64)
}

} // verus!
