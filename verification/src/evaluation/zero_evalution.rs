use vstd::prelude::*;

use super::eval_spec;
use crate::game::{position_status, PositionStatus};
use crate::search::{EvaluationFunction, Value};
use crate::utils::consts::MATE_VALUE;

verus! {

/// Scores a decided position from its winner and everything else as zero.
pub fn zero_evalution(position: &shakmaty::Chess) -> (r: Value)
    ensures
        r as int == eval_spec(EvaluationFunction::ZeroOutcome, *position),
{
    match position_status(position) {
        PositionStatus::WhiteWins => MATE_VALUE,
        PositionStatus::BlackWins => -MATE_VALUE,
        _ => 0,
    }
}

} // verus!
