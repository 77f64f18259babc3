//! Piece identity and board coordinates.

use vstd::prelude::*;
use vstd::string::*;
use crate::board_display::{
    color_name, convert_rank_alpha_to_numeric, kind_name, letter_number,
};

verus! {

/// The six kinds of chess piece.
#[derive(Copy, Clone, Debug, Hash, PartialEq, Eq, Structural)]
pub enum PieceType {
    Pawn,
    Knight,
    Bishop,
    Rook,
    Queen,
    King,
}

/// The side a piece belongs to.
#[derive(Copy, Clone, Debug, Hash, PartialEq, Eq, Structural)]
pub enum PieceColor {
    Black,
    White,
}

impl PieceType {
    /// The name of the kind.
    pub fn to_string(&self) -> (name: String)
        ensures
            name@ == kind_name(*self),
    {
        match self {
            PieceType::Pawn => String::from_str("Pawn"),
            PieceType::Knight => String::from_str("Knight"),
            PieceType::Bishop => String::from_str("Bishop"),
            PieceType::Rook => String::from_str("Rook"),
            PieceType::Queen => String::from_str("Queen"),
            PieceType::King => String::from_str("King"),
        }
    }
}

impl PieceColor {
    /// The name of the colour.
    pub fn to_string(&self) -> (name: String)
        ensures
            name@ == color_name(*self),
    {
        match self {
            PieceColor::White => String::from_str("White"),
            PieceColor::Black => String::from_str("Black"),
        }
    }

    /// The opposite side.
    pub open spec fn flipped(self) -> PieceColor {
        match self {
            PieceColor::Black => PieceColor::White,
            PieceColor::White => PieceColor::Black,
        }
    }

    /// Toggles the side: White becomes Black and Black becomes White.
    pub fn flip(self) -> (flipped: PieceColor)
        ensures
            flipped == self.flipped(),
    {
        match self {
            PieceColor::Black => PieceColor::White,
            PieceColor::White => PieceColor::Black,
        }
    }
}

/// A board coordinate. Both components of a square on the board are at most 7.
#[derive(Copy, Clone, Debug, PartialEq, Eq, Structural)]
pub struct PieceLoc {
    pub rank: u8,
    pub file: u8,
}

/// The rank that a digit from 1 to 8 names, counted from 0.
pub open spec fn digit_rank(c: char) -> Option<u8> {
    if c == '1' {
        Some(0u8)
    } else if c == '2' {
        Some(1u8)
    } else if c == '3' {
        Some(2u8)
    } else if c == '4' {
        Some(3u8)
    } else if c == '5' {
        Some(4u8)
    } else if c == '6' {
        Some(5u8)
    } else if c == '7' {
        Some(6u8)
    } else if c == '8' {
        Some(7u8)
    } else {
        None
    }
}

/// The square that a text names: exactly two characters, a letter from A
/// to H in either case for the file, then a digit from 1 to 8 for the rank.
pub open spec fn notation_square(text: Seq<char>) -> Option<PieceLoc> {
    if text.len() == 2 && letter_number(text[0]) is Some && digit_rank(text[1]) is Some {
        Some(PieceLoc { rank: digit_rank(text[1]).unwrap(), file: letter_number(text[0]).unwrap() })
    } else {
        None
    }
}

/// The rank that a digit from 1 to 8 names; `None` for any other character.
fn rank_from_digit(c: char) -> (rank: Option<u8>)
    ensures
        rank == digit_rank(c),
{
    if c == '1' {
        Some(0)
    } else if c == '2' {
        Some(1)
    } else if c == '3' {
        Some(2)
    } else if c == '4' {
        Some(3)
    } else if c == '5' {
        Some(4)
    } else if c == '6' {
        Some(5)
    } else if c == '7' {
        Some(6)
    } else if c == '8' {
        Some(7)
    } else {
        None
    }
}

impl PieceLoc {
    /// Whether the coordinate names one of the 64 squares.
    pub open spec fn on_board(self) -> bool {
        self.rank <= 7 && self.file <= 7
    }

    /// The slot of the square in a board stored rank by rank.
    pub open spec fn index(self) -> int {
        self.rank * 8 + self.file
    }

    pub fn new(rank: u8, file: u8) -> (loc: PieceLoc)
        ensures
            loc == (PieceLoc { rank, file }),
    {
        PieceLoc { rank, file }
    }

    /// Reads a square written as a file letter and a rank digit, such as
    /// `E2`. Any other text gives `None`.
    pub fn from_notation(notation: &str) -> (square: Option<PieceLoc>)
        ensures
            square == notation_square(notation@),
            square matches Some(loc) ==> loc.on_board(),
    {
        if notation.unicode_len() != 2 {
            return None;
        }
        match (convert_rank_alpha_to_numeric(notation.get_char(0)), rank_from_digit(
            notation.get_char(1),
        )) {
            (Some(file), Some(rank)) => Some(PieceLoc::new(rank, file)),
            _ => None,
        }
    }

    /// Whether `rank` and `file` both lie on the board.
    pub fn is_valid(rank: u8, file: u8) -> (valid: bool)
        ensures
            valid == (PieceLoc { rank, file }).on_board(),
    {
        rank <= 7 && file <= 7
    }
}

/// A piece: its kind, its side, and whether it has ever been relocated.
#[derive(Copy, Clone, Debug, PartialEq, Eq, Structural)]
pub struct Piece {
    pub piece_type: PieceType,
    pub color: PieceColor,
    pub has_moved: bool,
}

impl Piece {
    /// A piece that has not moved yet.
    pub fn new(p_type: PieceType, color: PieceColor) -> (piece: Piece)
        ensures
            piece == (Piece { piece_type: p_type, color, has_moved: false }),
    {
        Piece { piece_type: p_type, color, has_moved: false }
    }

    /// The piece in words: its colour, a blank, its kind.
    pub fn to_string(&self) -> (text: String)
        ensures
            text@ == color_name(self.color) + seq![' '] + kind_name(self.piece_type),
    {
        let mut text = self.color.to_string();
        text.push(' ');
        text.append(self.piece_type.to_string().as_str());
        text
    }

    /// The same piece with its moved flag set.
    pub open spec fn moved(self) -> Piece {
        Piece { has_moved: true, ..self }
    }
}

} // verus!
