//! The legality checker: given a position and a candidate move, either the
//! verdict on the move or the reason why it is rejected.

use vstd::prelude::*;
use vstd::string::*;
use crate::board::{Board, BoardView};
use crate::moves::{MoveResult, MoveType};
use crate::piece::{Piece, PieceColor, PieceLoc, PieceType};

verus! {

/// The reasons for which a candidate move is rejected.
#[derive(Copy, Clone, Debug, PartialEq, Eq, Structural)]
pub enum MoveError {
    WrongColorPiece,
    RankDifferenceGreater,
    FileDifferenceGreater,
    MoveOutOfBounds,
    MoveNotStraightLine,
    NoPositionChange,
    OccupiedBySameColor,
    PawnMustMoveForward,
    PawnMustCaptureDiagonal,
    PawnEnPassantNotValid,
    KnightInvalidMove,
    RookMustMoveCardinal,
    BishopMustMoveDiagonal,
    NoRookToCastleWith,
    CannotCastleWithMovedRook,
    CannotCastleWithMovedKing,
}

impl MoveError {
    /// What the rejection tells the player.
    pub open spec fn reason(self) -> Seq<char> {
        match self {
            MoveError::WrongColorPiece => "It is not your turn to move."@,
            MoveError::RankDifferenceGreater => "Piece attempted to move too many ranks at once."@,
            MoveError::FileDifferenceGreater => "Piece attempted to move too many files at once."@,
            MoveError::MoveOutOfBounds => "Piece attempted to move out of bounds."@,
            MoveError::MoveNotStraightLine => "Piece attempted to move to an invalid square."@,
            MoveError::NoPositionChange => "A piece cannot be moved to the square it already occupies."@,
            MoveError::OccupiedBySameColor => "A piece cannot be moved to a square that is occupied by a piece of the same color."@,
            MoveError::PawnMustMoveForward => "Pawns can only move forward."@,
            MoveError::PawnMustCaptureDiagonal => "Pawns cannot capture pieces directly in front of them."@,
            MoveError::PawnEnPassantNotValid => "Conditions not met to perform en passant"@,
            MoveError::KnightInvalidMove => "Knights may only move two squares in one cardinal direction, and one square in a perpendicular direction."@,
            MoveError::RookMustMoveCardinal => "Rooks may only move horizontally or vertically."@,
            MoveError::BishopMustMoveDiagonal => "Bishops may only move diagonally."@,
            MoveError::NoRookToCastleWith => "There is no valid rook to castle with on that side."@,
            MoveError::CannotCastleWithMovedRook => "You cannot castle with a rook that has previously moved."@,
            MoveError::CannotCastleWithMovedKing => "You cannot castle with a king that has previously moved."@,
        }
    }

    /// The rejection as a message for the player.
    pub fn to_string(&self) -> (text: String)
        ensures
            text@ == "Invalid Move: "@ + self.reason(),
    {
        let output = match self {
            MoveError::WrongColorPiece => "It is not your turn to move.",
            MoveError::RankDifferenceGreater => "Piece attempted to move too many ranks at once.",
            MoveError::FileDifferenceGreater => "Piece attempted to move too many files at once.",
            MoveError::MoveOutOfBounds => "Piece attempted to move out of bounds.",
            MoveError::MoveNotStraightLine => "Piece attempted to move to an invalid square.",
            MoveError::NoPositionChange => "A piece cannot be moved to the square it already occupies.",
            MoveError::OccupiedBySameColor => "A piece cannot be moved to a square that is occupied by a piece of the same color.",
            MoveError::PawnMustMoveForward => "Pawns can only move forward.",
            MoveError::PawnMustCaptureDiagonal => "Pawns cannot capture pieces directly in front of them.",
            MoveError::PawnEnPassantNotValid => "Conditions not met to perform en passant",
            MoveError::KnightInvalidMove => "Knights may only move two squares in one cardinal direction, and one square in a perpendicular direction.",
            MoveError::RookMustMoveCardinal => "Rooks may only move horizontally or vertically.",
            MoveError::BishopMustMoveDiagonal => "Bishops may only move diagonally.",
            MoveError::NoRookToCastleWith => "There is no valid rook to castle with on that side.",
            MoveError::CannotCastleWithMovedRook => "You cannot castle with a rook that has previously moved.",
            MoveError::CannotCastleWithMovedKing => "You cannot castle with a king that has previously moved.",
        };
        let mut text = String::from_str("Invalid Move: ");
        text.append(output);
        text
    }
}

/// The distance between two ranks or two files.
pub open spec fn distance(a: u8, b: u8) -> int {
    if a >= b {
        a - b
    } else {
        b - a
    }
}

/// The move covers as many files as ranks.
pub open spec fn diagonal_move(start: PieceLoc, dest: PieceLoc) -> bool {
    distance(dest.file, start.file) == distance(dest.rank, start.rank)
}

/// The move stays on its file or on its rank.
pub open spec fn cardinal_move(start: PieceLoc, dest: PieceLoc) -> bool {
    dest.file == start.file || dest.rank == start.rank
}

/// The move covers two squares one way and one square the other way.
pub open spec fn knight_move(start: PieceLoc, dest: PieceLoc) -> bool {
    ||| distance(dest.file, start.file) == 2 && distance(dest.rank, start.rank) == 1
    ||| distance(dest.file, start.file) == 1 && distance(dest.rank, start.rank) == 2
}

/// The change of rank by which a pawn of the given colour advances one step.
pub open spec fn pawn_direction(color: PieceColor) -> int {
    match color {
        PieceColor::White => 1,
        PieceColor::Black => -1,
    }
}

/// The number of ranks a pawn may cover: two until it has moved, then one.
pub open spec fn pawn_reach(piece: Piece) -> int {
    if piece.has_moved {
        1
    } else {
        2
    }
}

/// The destination lies ahead of the start for a pawn of the given colour.
pub open spec fn advances(color: PieceColor, start: PieceLoc, dest: PieceLoc) -> bool {
    (dest.rank - start.rank) * pawn_direction(color) > 0
}

/// `dest` is the square that a pawn of the other colour skipped on the move
/// made just before: that move, the most recent of the history, advanced a
/// pawn of the other colour by two ranks, on the file of `dest`, and `dest`
/// lies one step beyond where it ended, as `piece` advances.
pub open spec fn en_passant_target(position: BoardView, piece: Piece, dest: PieceLoc) -> bool {
    &&& position.previous_move() matches Some(last)
    &&& last.piece.piece_type == PieceType::Pawn
    &&& last.piece.color != piece.color
    &&& last.is_two_rank_advance()
    &&& dest.file == last.end_pos.file
    &&& dest.rank == last.end_pos.rank + pawn_direction(piece.color)
}

/// The verdict on an en passant capture by `piece` on `dest`.
pub open spec fn en_passant_verdict(position: BoardView, piece: Piece, dest: PieceLoc) -> Result<
    MoveResult,
    MoveError,
> {
    if en_passant_target(position, piece, dest) {
        Ok(MoveResult { move_type: MoveType::EnPassant, capturing: true })
    } else {
        Err(MoveError::PawnEnPassantNotValid)
    }
}

/// The pawn's rule. `capturing` says whether a piece of the other colour
/// stands on `dest`.
pub open spec fn pawn_verdict(
    position: BoardView,
    piece: Piece,
    start: PieceLoc,
    dest: PieceLoc,
    capturing: bool,
) -> Result<MoveResult, MoveError> {
    if distance(dest.rank, start.rank) > pawn_reach(piece) {
        Err(MoveError::RankDifferenceGreater)
    } else if !advances(piece.color, start, dest) {
        Err(MoveError::PawnMustMoveForward)
    } else if dest.file == start.file {
        if capturing {
            Err(MoveError::PawnMustCaptureDiagonal)
        } else {
            Ok(MoveResult { move_type: MoveType::Normal, capturing: false })
        }
    } else if distance(dest.file, start.file) != 1 || distance(dest.rank, start.rank) != 1 {
        Err(MoveError::PawnMustCaptureDiagonal)
    } else if capturing {
        Ok(MoveResult { move_type: MoveType::Normal, capturing: true })
    } else {
        en_passant_verdict(position, piece, dest)
    }
}

/// The corner on the king's rank towards which a castling king shifts.
pub open spec fn castling_corner(start: PieceLoc, dest: PieceLoc) -> PieceLoc {
    PieceLoc { rank: dest.rank, file: if dest.file < start.file { 0u8 } else { 7u8 } }
}

/// The verdict on a king's shift by two files along its rank.
pub open spec fn castling_verdict(
    position: BoardView,
    piece: Piece,
    start: PieceLoc,
    dest: PieceLoc,
) -> Result<MoveResult, MoveError> {
    if piece.has_moved {
        Err(MoveError::CannotCastleWithMovedKing)
    } else {
        match position.occupant(castling_corner(start, dest)) {
            Some(rook) => if rook.piece_type != PieceType::Rook {
                Err(MoveError::NoRookToCastleWith)
            } else if rook.has_moved {
                Err(MoveError::CannotCastleWithMovedRook)
            } else {
                Ok(MoveResult { move_type: MoveType::Castling, capturing: false })
            },
            None => Err(MoveError::NoRookToCastleWith),
        }
    }
}

/// The king's rule.
pub open spec fn king_verdict(
    position: BoardView,
    piece: Piece,
    start: PieceLoc,
    dest: PieceLoc,
    capturing: bool,
) -> Result<MoveResult, MoveError> {
    if distance(dest.rank, start.rank) <= 1 && distance(dest.file, start.file) <= 1 {
        Ok(MoveResult { move_type: MoveType::Normal, capturing })
    } else if dest.rank == start.rank && distance(dest.file, start.file) == 2 {
        castling_verdict(position, piece, start, dest)
    } else if distance(dest.file, start.file) > 1 {
        Err(MoveError::FileDifferenceGreater)
    } else {
        Err(MoveError::RankDifferenceGreater)
    }
}

/// The rule of the piece's kind, applied once the rules common to all
/// kinds have let the move pass.
pub open spec fn kind_verdict(
    position: BoardView,
    piece: Piece,
    start: PieceLoc,
    dest: PieceLoc,
    capturing: bool,
) -> Result<MoveResult, MoveError> {
    let normal = Ok::<MoveResult, MoveError>(MoveResult { move_type: MoveType::Normal, capturing });
    match piece.piece_type {
        PieceType::Pawn => pawn_verdict(position, piece, start, dest, capturing),
        PieceType::King => king_verdict(position, piece, start, dest, capturing),
        PieceType::Rook => if cardinal_move(start, dest) {
            normal
        } else {
            Err(MoveError::RookMustMoveCardinal)
        },
        PieceType::Bishop => if diagonal_move(start, dest) {
            normal
        } else {
            Err(MoveError::BishopMustMoveDiagonal)
        },
        PieceType::Queen => if diagonal_move(start, dest) || cardinal_move(start, dest) {
            normal
        } else {
            Err(MoveError::MoveNotStraightLine)
        },
        PieceType::Knight => if knight_move(start, dest) {
            normal
        } else {
            Err(MoveError::KnightInvalidMove)
        },
    }
}

/// The verdict on moving `piece` from `start` to `dest` in `position`.
///
/// The rules common to all kinds come first, in this order: the piece must
/// belong to the side to move; the destination must lie on the board and
/// differ from the start; and no piece of the mover's colour may stand on
/// it. A piece of the other colour there makes the move a capture. Then the
/// rule of the piece's kind decides.
pub open spec fn check_move(position: BoardView, piece: Piece, start: PieceLoc, dest: PieceLoc) -> Result<
    MoveResult,
    MoveError,
> {
    if piece.color != position.turn {
        Err(MoveError::WrongColorPiece)
    } else if !dest.on_board() {
        Err(MoveError::MoveOutOfBounds)
    } else if dest == start {
        Err(MoveError::NoPositionChange)
    } else {
        match position.occupant(dest) {
            Some(existing) => if existing.color == piece.color {
                Err(MoveError::OccupiedBySameColor)
            } else {
                kind_verdict(position, piece, start, dest, true)
            },
            None => kind_verdict(position, piece, start, dest, false),
        }
    }
}

/// The distance between two ranks or two files.
pub fn abs_diff(a: u8, b: u8) -> (d: u8)
    ensures
        d == distance(a, b),
{
    if a >= b {
        a - b
    } else {
        b - a
    }
}

/// Whether the move covers as many files as ranks.
pub fn is_diagonal_move(start: &PieceLoc, dest: &PieceLoc) -> (diagonal: bool)
    ensures
        diagonal == diagonal_move(*start, *dest),
{
    abs_diff(dest.file, start.file) == abs_diff(dest.rank, start.rank)
}

/// Whether the move stays on its file or on its rank.
pub fn is_cardinal_move(start: &PieceLoc, dest: &PieceLoc) -> (cardinal: bool)
    ensures
        cardinal == cardinal_move(*start, *dest),
{
    dest.file == start.file || dest.rank == start.rank
}

/// Whether the move is a knight's jump.
pub fn is_knight_move(start: &PieceLoc, dest: &PieceLoc) -> (jump: bool)
    ensures
        jump == knight_move(*start, *dest),
{
    (abs_diff(dest.file, start.file) == 2 && abs_diff(dest.rank, start.rank) == 1) || (abs_diff(
        dest.file,
        start.file,
    ) == 1 && abs_diff(dest.rank, start.rank) == 2)
}

/// Decides whether `piece` may capture en passant on `dest`: only the most
/// recent move of the history counts.
pub fn can_en_passant(board: &Board, piece: &Piece, dest: &PieceLoc) -> (verdict: Result<
    MoveResult,
    MoveError,
>)
    ensures
        verdict == en_passant_verdict(board@, *piece, *dest),
{
    if let Some(last_move) = board.get_previous_move() {
        if last_move.piece.piece_type == PieceType::Pawn && last_move.piece.color != piece.color {
            if abs_diff(last_move.start_pos.rank, last_move.end_pos.rank) == 2 {
                let behind = match piece.color {
                    PieceColor::White => last_move.end_pos.rank < 255 && dest.rank
                        == last_move.end_pos.rank + 1,
                    PieceColor::Black => last_move.end_pos.rank > 0 && dest.rank
                        == last_move.end_pos.rank - 1,
                };
                if behind && dest.file == last_move.end_pos.file {
                    return Ok(MoveResult { move_type: MoveType::EnPassant, capturing: true });
                }
            }
        }
    }
    Err(MoveError::PawnEnPassantNotValid)
}

/// Applies the pawn's rule.
fn check_pawn(board: &Board, piece: &Piece, start: &PieceLoc, dest: &PieceLoc, capturing: bool) -> (verdict:
    Result<MoveResult, MoveError>)
    ensures
        verdict == pawn_verdict(board@, *piece, *start, *dest, capturing),
{
    let max_diff: u8 = if piece.has_moved {
        1
    } else {
        2
    };
    if abs_diff(dest.rank, start.rank) > max_diff {
        return Err(MoveError::RankDifferenceGreater);
    }
    let forward = match piece.color {
        PieceColor::White => dest.rank > start.rank,
        PieceColor::Black => dest.rank < start.rank,
    };
    if !forward {
        return Err(MoveError::PawnMustMoveForward);
    }
    if dest.file == start.file {
        if capturing {
            Err(MoveError::PawnMustCaptureDiagonal)
        } else {
            Ok(MoveResult { move_type: MoveType::Normal, capturing: false })
        }
    } else if abs_diff(dest.file, start.file) != 1 || abs_diff(dest.rank, start.rank) != 1 {
        Err(MoveError::PawnMustCaptureDiagonal)
    } else if capturing {
        Ok(MoveResult { move_type: MoveType::Normal, capturing: true })
    } else {
        can_en_passant(board, piece, dest)
    }
}

/// Applies the king's rule, castling included.
fn check_king(board: &Board, piece: &Piece, start: &PieceLoc, dest: &PieceLoc, capturing: bool) -> (verdict:
    Result<MoveResult, MoveError>)
    ensures
        verdict == king_verdict(board@, *piece, *start, *dest, capturing),
{
    let file_diff: u8 = abs_diff(dest.file, start.file);
    let rank_diff: u8 = abs_diff(dest.rank, start.rank);
    if rank_diff <= 1 && file_diff <= 1 {
        Ok(MoveResult { move_type: MoveType::Normal, capturing })
    } else if dest.rank == start.rank && file_diff == 2 {
        if piece.has_moved {
            return Err(MoveError::CannotCastleWithMovedKing);
        }
        let castling_rook = if dest.file < start.file {
            board.get_piece_at_location(PieceLoc::new(dest.rank, 0))
        } else {
            board.get_piece_at_location(PieceLoc::new(dest.rank, 7))
        };
        match castling_rook {
            Some(rook) => {
                if rook.piece_type != PieceType::Rook {
                    Err(MoveError::NoRookToCastleWith)
                } else if rook.has_moved {
                    Err(MoveError::CannotCastleWithMovedRook)
                } else {
                    Ok(MoveResult { move_type: MoveType::Castling, capturing: false })
                }
            },
            None => Err(MoveError::NoRookToCastleWith),
        }
    } else if file_diff > 1 {
        Err(MoveError::FileDifferenceGreater)
    } else {
        Err(MoveError::RankDifferenceGreater)
    }
}

/// Decides whether moving `piece` from `start` to `dest` is legal on
/// `board`. A legal move gets its classification and whether it captures; a
/// rejected one the reason. The position is only read.
pub fn is_valid_move(board: &Board, piece: &Piece, start: &PieceLoc, dest: &PieceLoc) -> (verdict:
    Result<MoveResult, MoveError>)
    ensures
        verdict == check_move(board@, *piece, *start, *dest),
{
    if board.current_turn != piece.color {
        return Err(MoveError::WrongColorPiece);
    }
    if !PieceLoc::is_valid(dest.rank, dest.file) {
        return Err(MoveError::MoveOutOfBounds);
    }
    if dest.rank == start.rank && dest.file == start.file {
        return Err(MoveError::NoPositionChange);
    }
    let mut capturing = false;
    if let Some(existing_piece) = board.get_piece_at_location(*dest) {
        if existing_piece.color == piece.color {
            return Err(MoveError::OccupiedBySameColor);
        } else {
            capturing = true;
        }
    }
    let normal = MoveResult { move_type: MoveType::Normal, capturing };

    match piece.piece_type {
        PieceType::Pawn => check_pawn(board, piece, start, dest, capturing),
        PieceType::King => check_king(board, piece, start, dest, capturing),
        PieceType::Rook => {
            if is_cardinal_move(start, dest) {
                Ok(normal)
            } else {
                Err(MoveError::RookMustMoveCardinal)
            }
        },
        PieceType::Bishop => {
            if is_diagonal_move(start, dest) {
                Ok(normal)
            } else {
                Err(MoveError::BishopMustMoveDiagonal)
            }
        },
        PieceType::Queen => {
            if is_diagonal_move(start, dest) || is_cardinal_move(start, dest) {
                Ok(normal)
            } else {
                Err(MoveError::MoveNotStraightLine)
            }
        },
        PieceType::Knight => {
            if is_knight_move(start, dest) {
                Ok(normal)
            } else {
                Err(MoveError::KnightInvalidMove)
            }
        },
    }
}

} // verus!
