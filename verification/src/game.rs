//! The interface to the game-rules engine (the `shakmaty` crate). Positions
//! and moves are opaque values here: the search core never looks inside them,
//! it only derives children, asks whether the game is over, and who moves.

use shakmaty::Position;
use vstd::prelude::*;

verus! {

#[verifier::external_type_specification]
#[verifier::external_body]
pub struct ExChess(shakmaty::Chess);

#[verifier::external_type_specification]
#[verifier::external_body]
pub struct ExMove(shakmaty::Move);

/// How a position stands: decided for one side, drawn, or still being played.
#[derive(Clone, Copy, Debug, PartialEq, Eq, Structural)]
pub enum PositionStatus {
    WhiteWins,
    BlackWins,
    Draw,
    Ongoing,
}

/// Whether white is the side to move in `p` (what `Position::turn` returns).
pub uninterp spec fn white_to_move(p: shakmaty::Chess) -> bool;

/// The outcome of `p` (what `Position::outcome` returns: checkmate,
/// stalemate, insufficient material, or still in progress).
pub uninterp spec fn status_of(p: shakmaty::Chess) -> PositionStatus;

/// The legal moves of `p`, in the order `Position::legal_moves` yields them.
pub uninterp spec fn legal_moves_of(p: shakmaty::Chess) -> Seq<shakmaty::Move>;

/// The position that playing the legal move `m` in `p` reaches
/// (what `Position::play` returns).
pub uninterp spec fn after_move(p: shakmaty::Chess, m: shakmaty::Move) -> shakmaty::Chess;

/// How many pieces of the given color (`white`) and role stand on the board
/// of `p`, with roles numbered as `shakmaty::Role`: pawn 1, knight 2,
/// bishop 3, rook 4, queen 5, king 6 (what `Board::by_piece` yields).
pub uninterp spec fn piece_count_of(p: shakmaty::Chess, white: bool, role: int) -> nat;

/// The position a FEN string describes, or `None` when the text is not a
/// valid FEN for a playable position (what FEN parsing returns).
pub uninterp spec fn parsed_fen(s: Seq<char>) -> Option<shakmaty::Chess>;

/// The legal move of `p` that a UCI move string names, or `None` when the
/// text is malformed or the move is not legal in `p`.
pub uninterp spec fn parsed_uci_move(p: shakmaty::Chess, s: Seq<char>) -> Option<shakmaty::Move>;

/// Relies on shakmaty's `Position::turn`: the side to move, a pure function
/// of the position.
#[verifier::external_body]
pub fn turn_is_white(p: &shakmaty::Chess) -> (r: bool)
    ensures
        r == white_to_move(*p),
{
    p.turn() == shakmaty::Color::White
}

/// Relies on shakmaty's `Position::outcome`: decided by checkmate or variant
/// end (a winner), or drawn by stalemate or insufficient material, else the
/// game goes on.
#[verifier::external_body]
pub fn position_status(p: &shakmaty::Chess) -> (r: PositionStatus)
    ensures
        r == status_of(*p),
{
    match p.outcome() {
        shakmaty::Outcome::Known(shakmaty::KnownOutcome::Decisive { winner }) => match winner {
            shakmaty::Color::White => PositionStatus::WhiteWins,
            shakmaty::Color::Black => PositionStatus::BlackWins,
        },
        shakmaty::Outcome::Known(shakmaty::KnownOutcome::Draw) => PositionStatus::Draw,
        shakmaty::Outcome::Unknown => PositionStatus::Ongoing,
    }
}

/// Relies on shakmaty's `Position::play`: for a legal move it returns `Ok`
/// with the successor position.
#[verifier::external_body]
pub fn play_move(p: &shakmaty::Chess, m: &shakmaty::Move) -> (r: shakmaty::Chess)
    requires
        legal_moves_of(*p).contains(*m),
    ensures
        r == after_move(*p, *m),
{
    p.clone().play(*m).unwrap()
}

/// Relies on shakmaty's `Chess::default`: the standard initial position,
/// where the game is in progress, white moves first, and exactly twenty
/// moves are legal.
#[verifier::external_body]
pub fn default_position() -> (r: shakmaty::Chess)
    ensures
        status_of(r) == PositionStatus::Ongoing,
        white_to_move(r),
        legal_moves_of(r).len() == 20,
{
    shakmaty::Chess::default()
}

/// Relies on shakmaty's `Fen::from_ascii` and `Fen::into_position`: parsing
/// is a pure function of the text, `Ok` exactly on valid FEN for a playable
/// standard-chess position.
#[verifier::external_body]
pub fn parse_fen_position(s: &str) -> (r: Option<shakmaty::Chess>)
    ensures
        r == parsed_fen(s@),
{
    match shakmaty::fen::Fen::from_ascii(s.as_bytes()) {
        Ok(fen) => fen.into_position(shakmaty::CastlingMode::Standard).ok(),
        Err(_) => None,
    }
}

/// Relies on shakmaty's `UciMove::from_ascii` and `UciMove::to_move`: the
/// result is a pure function of position and text, and `to_move` returns
/// only moves that are legal in the given position.
#[verifier::external_body]
pub fn parse_uci_move(p: &shakmaty::Chess, s: &str) -> (r: Option<shakmaty::Move>)
    ensures
        r == parsed_uci_move(*p, s@),
        r matches Some(m) ==> legal_moves_of(*p).contains(m),
{
    match shakmaty::uci::UciMove::from_ascii(s.as_bytes()) {
        Ok(uci) => uci.to_move(p).ok(),
        Err(_) => None,
    }
}

} // verus!
