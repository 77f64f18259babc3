//! Moves: their classification and the record kept of each committed move.

use vstd::prelude::*;
use vstd::string::*;
use crate::board::Board;
use crate::board_display::{
    convert_rank_numeric_to_alpha, get_piece_display, move_text, push_decimal,
};
use crate::move_checker::{check_move, is_valid_move, MoveError};
use crate::piece::{Piece, PieceLoc};

verus! {

/// How a legal move is classified.
#[derive(Copy, Clone, Debug, PartialEq, Eq, Structural)]
pub enum MoveType {
    Normal,
    EnPassant,
    Castling,
}

/// The verdict on a legal move: its classification and whether it captures.
#[derive(Copy, Clone, Debug, PartialEq, Eq, Structural)]
pub struct MoveResult {
    pub move_type: MoveType,
    pub capturing: bool,
}

/// A move as it is recorded in the history: the piece as it was before the
/// move, where it started, where it went, and the verdict on it.
#[derive(Copy, Clone, Debug, PartialEq, Eq, Structural)]
pub struct Move {
    pub piece: Piece,
    pub start_pos: PieceLoc,
    pub end_pos: PieceLoc,
    pub move_type: MoveType,
    pub capturing: bool,
}

impl Move {
    /// Judges the candidate move on `board` and, if it is legal, gives the
    /// move with the checker's verdict on it; a rejected candidate gives the
    /// reason. No move can be made this way that the checker rejects.
    pub fn new(board: &Board, piece: &Piece, start: &PieceLoc, dest: &PieceLoc) -> (created: Result<
        Move,
        MoveError,
    >)
        ensures
            match check_move(board@, *piece, *start, *dest) {
                Ok(verdict) => created == Ok::<Move, MoveError>(
                    Move {
                        piece: *piece,
                        start_pos: *start,
                        end_pos: *dest,
                        move_type: verdict.move_type,
                        capturing: verdict.capturing,
                    },
                ),
                Err(reason) => created == Err::<Move, MoveError>(reason),
            },
    {
        match is_valid_move(board, piece, start, dest) {
            Ok(result) => Ok(
                Move {
                    piece: *piece,
                    start_pos: *start,
                    end_pos: *dest,
                    move_type: result.move_type,
                    capturing: result.capturing,
                },
            ),
            Err(e) => Err(e),
        }
    }

    /// Whether the move can be written in short notation: its destination's
    /// file has a letter, and the number of its rank fits the coordinate's
    /// type.
    pub open spec fn displayable(self) -> bool {
        self.end_pos.file < 8 && self.end_pos.rank < 255
    }

    /// The move in short notation, as the move list shows it.
    pub fn get_move_display(&self) -> (text: String)
        requires
            self.displayable(),
        ensures
            text@ == move_text(*self),
    {
        let mut text = String::new();
        text.push(get_piece_display(&self.piece, true));
        match convert_rank_numeric_to_alpha(self.end_pos.file) {
            Some(file) => text.push(file),
            None => {},
        }
        let rank: u64 = self.end_pos.rank as u64 + 1;
        push_decimal(&mut text, rank);
        assert(text@ =~= move_text(*self));
        text
    }

    /// The verdict carried by this move.
    pub open spec fn verdict(self) -> MoveResult {
        MoveResult { move_type: self.move_type, capturing: self.capturing }
    }

    /// The square whose occupant this move takes off the board, if any:
    /// the destination for a normal capture, the square beside the mover
    /// (its starting rank, the destination's file) for en passant.
    pub open spec fn capture_square(self) -> Option<PieceLoc> {
        if !self.capturing {
            None
        } else {
            match self.move_type {
                MoveType::Normal => Some(self.end_pos),
                MoveType::EnPassant => Some(
                    PieceLoc { rank: self.start_pos.rank, file: self.end_pos.file },
                ),
                MoveType::Castling => None,
            }
        }
    }

    /// Whether the move advances a piece by exactly two ranks.
    pub open spec fn is_two_rank_advance(self) -> bool {
        self.end_pos.rank - self.start_pos.rank == 2 || self.start_pos.rank - self.end_pos.rank == 2
    }
}

} // verus!
