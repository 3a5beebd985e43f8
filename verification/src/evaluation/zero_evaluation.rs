use vstd::prelude::*;

use super::{evaluate_outcome, eval_spec};
use crate::game::{position_status, PositionStatus};
use crate::search::{EvaluationFunction, Value};

verus! {

/// Scores a decided position by its outcome and everything else as zero.
pub fn zero_evaluation(position: &shakmaty::Chess) -> (r: Value)
    ensures
        r as int == eval_spec(EvaluationFunction::Zero, *position),
{
    let status = position_status(position);
    match status {
        PositionStatus::Ongoing => 0,
        _ => evaluate_outcome(status),
    }
}

} // verus!
