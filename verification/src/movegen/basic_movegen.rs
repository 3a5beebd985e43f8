use shakmaty::Position;
use vstd::prelude::*;

use crate::game::{legal_moves_of, status_of, PositionStatus};

verus! {

/// Relies on shakmaty's `Position::legal_moves`: every legal move for the
/// side to move, in the generator's order; a `MoveList` holds at most 270
/// moves; a position with no legal moves is checkmate or stalemate, so its
/// outcome is decided.
#[verifier::external_body]
pub fn basic_movegen(p: &shakmaty::Chess) -> (r: Vec<shakmaty::Move>)
    ensures
        r@ == legal_moves_of(*p),
        r@.len() <= 270,
        r@.len() == 0 ==> status_of(*p) != PositionStatus::Ongoing,
{
    p.legal_moves().into_iter().collect()
}

} // verus!
