pub mod material_evaluation;
pub mod material_mobility_evaluation;
pub mod zero_evaluation;
pub mod zero_evalution;

use shakmaty::Position;
use vstd::prelude::*;

use crate::game::{legal_moves_of, piece_count_of, status_of, PositionStatus};
use crate::movegen::basic_movegen::basic_movegen;
use crate::search::{EvaluationFunction, Value};
use crate::utils::consts::MATE_VALUE;

verus! {

/// The score of a decided outcome: a win for white is `MATE_VALUE`, a win
/// for black its negation, a draw zero.
pub open spec fn outcome_value_spec(outcome: PositionStatus) -> int {
    match outcome {
        PositionStatus::WhiteWins => MATE_VALUE as int,
        PositionStatus::BlackWins => -(MATE_VALUE as int),
        PositionStatus::Draw => 0,
        PositionStatus::Ongoing => 0,
    }
}

/// What each pluggable evaluation returns on any position: the outcome score
/// on a decided position, its own heuristic otherwise.
pub open spec fn eval_spec(f: EvaluationFunction, p: shakmaty::Chess) -> int {
    if status_of(p) != PositionStatus::Ongoing {
        outcome_value_spec(status_of(p))
    } else {
        match f {
            EvaluationFunction::Zero => 0,
            EvaluationFunction::ZeroOutcome => 0,
            EvaluationFunction::Material => crate::evaluation::material_evaluation::material_eval_spec(p),
            EvaluationFunction::MaterialMobility => legal_moves_of(p).len() - legal_moves_of(p).len(),
        }
    }
}

pub fn evaluate_outcome(outcome: PositionStatus) -> (r: Value)
    requires
        outcome != PositionStatus::Ongoing,
    ensures
        r as int == outcome_value_spec(outcome),
{
    match outcome {
        PositionStatus::WhiteWins => MATE_VALUE,
        PositionStatus::BlackWins => -MATE_VALUE,
        _ => 0,
    }
}

/// Runs the evaluation that `f` names on `p`.
pub fn evaluate(f: EvaluationFunction, p: &shakmaty::Chess) -> (r: Value)
    ensures
        r as int == eval_spec(f, *p),
{
    match f {
        EvaluationFunction::Zero => crate::evaluation::zero_evaluation::zero_evaluation(p),
        EvaluationFunction::ZeroOutcome => crate::evaluation::zero_evalution::zero_evalution(p),
        EvaluationFunction::Material => crate::evaluation::material_evaluation::material_evaluation(p),
        EvaluationFunction::MaterialMobility => crate::evaluation::material_mobility_evaluation::material_mobility_evaluation(p),
    }
}

/// Relies on shakmaty's `Board::by_piece` and `Bitboard::count`: the white
/// pawns on the board, at most 64 of anything on 64 squares.
#[verifier::external_body]
pub(crate) fn get_number_of_white_pawns(p: &shakmaty::Chess) -> (r: usize)
    ensures
        r as nat == piece_count_of(*p, true, 1),
        r <= 64,
{
    p.board().by_piece(shakmaty::Piece { color: shakmaty::Color::White, role: shakmaty::Role::Pawn }).count()
}

/// Relies on shakmaty's `Board::by_piece` and `Bitboard::count`: the black
/// pawns on the board, at most 64 of anything on 64 squares.
#[verifier::external_body]
pub(crate) fn get_number_of_black_pawns(p: &shakmaty::Chess) -> (r: usize)
    ensures
        r as nat == piece_count_of(*p, false, 1),
        r <= 64,
{
    p.board().by_piece(shakmaty::Piece { color: shakmaty::Color::Black, role: shakmaty::Role::Pawn }).count()
}

/// Relies on shakmaty's `Board::by_piece` and `Bitboard::count`: the white
/// knights on the board, at most 64 of anything on 64 squares.
#[verifier::external_body]
pub(crate) fn get_number_of_white_knights(p: &shakmaty::Chess) -> (r: usize)
    ensures
        r as nat == piece_count_of(*p, true, 2),
        r <= 64,
{
    p.board().by_piece(shakmaty::Piece { color: shakmaty::Color::White, role: shakmaty::Role::Knight }).count()
}

/// Relies on shakmaty's `Board::by_piece` and `Bitboard::count`: the black
/// knights on the board, at most 64 of anything on 64 squares.
#[verifier::external_body]
pub(crate) fn get_number_of_black_knights(p: &shakmaty::Chess) -> (r: usize)
    ensures
        r as nat == piece_count_of(*p, false, 2),
        r <= 64,
{
    p.board().by_piece(shakmaty::Piece { color: shakmaty::Color::Black, role: shakmaty::Role::Knight }).count()
}

/// Relies on shakmaty's `Board::by_piece` and `Bitboard::count`: the white
/// bishops on the board, at most 64 of anything on 64 squares.
#[verifier::external_body]
pub(crate) fn get_number_of_white_bishops(p: &shakmaty::Chess) -> (r: usize)
    ensures
        r as nat == piece_count_of(*p, true, 3),
        r <= 64,
{
    p.board().by_piece(shakmaty::Piece { color: shakmaty::Color::White, role: shakmaty::Role::Bishop }).count()
}

/// Relies on shakmaty's `Board::by_piece` and `Bitboard::count`: the black
/// bishops on the board, at most 64 of anything on 64 squares.
#[verifier::external_body]
pub(crate) fn get_number_of_black_bishops(p: &shakmaty::Chess) -> (r: usize)
    ensures
        r as nat == piece_count_of(*p, false, 3),
        r <= 64,
{
    p.board().by_piece(shakmaty::Piece { color: shakmaty::Color::Black, role: shakmaty::Role::Bishop }).count()
}

/// Relies on shakmaty's `Board::by_piece` and `Bitboard::count`: the white
/// rooks on the board, at most 64 of anything on 64 squares.
#[verifier::external_body]
pub(crate) fn get_number_of_white_rooks(p: &shakmaty::Chess) -> (r: usize)
    ensures
        r as nat == piece_count_of(*p, true, 4),
        r <= 64,
{
    p.board().by_piece(shakmaty::Piece { color: shakmaty::Color::White, role: shakmaty::Role::Rook }).count()
}

/// Relies on shakmaty's `Board::by_piece` and `Bitboard::count`: the black
/// rooks on the board, at most 64 of anything on 64 squares.
#[verifier::external_body]
pub(crate) fn get_number_of_black_rooks(p: &shakmaty::Chess) -> (r: usize)
    ensures
        r as nat == piece_count_of(*p, false, 4),
        r <= 64,
{
    p.board().by_piece(shakmaty::Piece { color: shakmaty::Color::Black, role: shakmaty::Role::Rook }).count()
}

/// Relies on shakmaty's `Board::by_piece` and `Bitboard::count`: the white
/// queens on the board, at most 64 of anything on 64 squares.
#[verifier::external_body]
pub(crate) fn get_number_of_white_queens(p: &shakmaty::Chess) -> (r: usize)
    ensures
        r as nat == piece_count_of(*p, true, 5),
        r <= 64,
{
    p.board().by_piece(shakmaty::Piece { color: shakmaty::Color::White, role: shakmaty::Role::Queen }).count()
}

/// Relies on shakmaty's `Board::by_piece` and `Bitboard::count`: the black
/// queens on the board, at most 64 of anything on 64 squares.
#[verifier::external_body]
pub(crate) fn get_number_of_black_queens(p: &shakmaty::Chess) -> (r: usize)
    ensures
        r as nat == piece_count_of(*p, false, 5),
        r <= 64,
{
    p.board().by_piece(shakmaty::Piece { color: shakmaty::Color::Black, role: shakmaty::Role::Queen }).count()
}

/// How many moves the side to move has in `p`.
pub fn get_number_of_moves_for_white(p: &shakmaty::Chess) -> (r: usize)
    ensures
        r as nat == legal_moves_of(*p).len(),
        r <= 270,
{
    basic_movegen(p).len()
}

/// How many moves the side to move has in `p`.
pub fn get_number_of_moves_for_black(p: &shakmaty::Chess) -> (r: usize)
    ensures
        r as nat == legal_moves_of(*p).len(),
        r <= 270,
{
    basic_movegen(p).len()
}

} // verus!
