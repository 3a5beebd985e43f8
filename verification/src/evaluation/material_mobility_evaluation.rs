use vstd::prelude::*;

use super::{
    evaluate_outcome, eval_spec, get_number_of_moves_for_black, get_number_of_moves_for_white,
};
use crate::game::{legal_moves_of, position_status, PositionStatus};
use crate::search::{EvaluationFunction, Value};

verus! {

/// Scores a decided position by its outcome, any other by the mobility
/// difference.
pub fn material_mobility_evaluation(position: &shakmaty::Chess) -> (r: Value)
    ensures
        r as int == eval_spec(EvaluationFunction::MaterialMobility, *position),
{
    let status = position_status(position);
    if !matches!(status, PositionStatus::Ongoing) {
        return evaluate_outcome(status);
    }
    let mobility_value = get_white_mobility(position) - get_black_mobility(position);
    mobility_value
}

/// The mobility counted for white: the legal moves of the side to move.
fn get_white_mobility(position: &shakmaty::Chess) -> (r: Value)
    ensures
        r as int == legal_moves_of(*position).len(),
{
    get_number_of_moves_for_white(position) as i64
}

/// The mobility counted for black: the legal moves of the side to move.
fn get_black_mobility(position: &shakmaty::Chess) -> (r: Value)
    ensures
        r as int == legal_moves_of(*position).len(),
{
    get_number_of_moves_for_black(position) as i64
}

} // verus!
