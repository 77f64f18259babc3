//! Text for pieces, squares, moves, the move list and the tally.

use vstd::prelude::*;
use vstd::string::*;
use crate::board::{Board, BoardView, Graveyard};
use crate::moves::Move;
use crate::piece::{Piece, PieceColor, PieceType};

verus! {

/// The character that stands for a decimal digit.
pub open spec fn digit_char(digit: int) -> char {
    if digit == 0 {
        '0'
    } else if digit == 1 {
        '1'
    } else if digit == 2 {
        '2'
    } else if digit == 3 {
        '3'
    } else if digit == 4 {
        '4'
    } else if digit == 5 {
        '5'
    } else if digit == 6 {
        '6'
    } else if digit == 7 {
        '7'
    } else if digit == 8 {
        '8'
    } else {
        '9'
    }
}

/// A number written in decimal, without leading zeros.
pub open spec fn decimal(n: nat) -> Seq<char>
    decreases n,
{
    if n < 10 {
        seq![digit_char(n as int)]
    } else {
        decimal(n / 10).push(digit_char((n % 10) as int))
    }
}

/// The letter by which a piece of the given kind is shown. A pawn is shown
/// as a blank where `pawn_blank` asks for it, as in move notation.
pub open spec fn glyph(kind: PieceType, pawn_blank: bool) -> char {
    match kind {
        PieceType::Pawn => if pawn_blank {
            ' '
        } else {
            'P'
        },
        PieceType::Knight => 'N',
        PieceType::Bishop => 'B',
        PieceType::Rook => 'R',
        PieceType::Queen => 'Q',
        PieceType::King => 'K',
    }
}

/// The capital letter of a rank or file number below 8: A for 0 up to H for 7.
pub open spec fn letter(number: u8) -> char {
    if number == 0 {
        'A'
    } else if number == 1 {
        'B'
    } else if number == 2 {
        'C'
    } else if number == 3 {
        'D'
    } else if number == 4 {
        'E'
    } else if number == 5 {
        'F'
    } else if number == 6 {
        'G'
    } else {
        'H'
    }
}

/// The number of a letter from A to H, in either case.
pub open spec fn letter_number(c: char) -> Option<u8> {
    if c == 'A' || c == 'a' {
        Some(0u8)
    } else if c == 'B' || c == 'b' {
        Some(1u8)
    } else if c == 'C' || c == 'c' {
        Some(2u8)
    } else if c == 'D' || c == 'd' {
        Some(3u8)
    } else if c == 'E' || c == 'e' {
        Some(4u8)
    } else if c == 'F' || c == 'f' {
        Some(5u8)
    } else if c == 'G' || c == 'g' {
        Some(6u8)
    } else if c == 'H' || c == 'h' {
        Some(7u8)
    } else {
        None
    }
}

/// The letter by which a piece is shown.
pub fn get_piece_display(piece: &Piece, pawn_blank: bool) -> (shown: char)
    ensures
        shown == glyph(piece.piece_type, pawn_blank),
{
    match piece.piece_type {
        PieceType::Pawn => {
            if pawn_blank {
                ' '
            } else {
                'P'
            }
        },
        PieceType::Knight => 'N',
        PieceType::Bishop => 'B',
        PieceType::Rook => 'R',
        PieceType::Queen => 'Q',
        PieceType::King => 'K',
    }
}

/// The number of a letter from A to H, in either case; `None` for any other
/// character.
pub fn convert_rank_alpha_to_numeric(rank: char) -> (number: Option<u8>)
    ensures
        number == letter_number(rank),
{
    if rank == 'A' || rank == 'a' {
        Some(0)
    } else if rank == 'B' || rank == 'b' {
        Some(1)
    } else if rank == 'C' || rank == 'c' {
        Some(2)
    } else if rank == 'D' || rank == 'd' {
        Some(3)
    } else if rank == 'E' || rank == 'e' {
        Some(4)
    } else if rank == 'F' || rank == 'f' {
        Some(5)
    } else if rank == 'G' || rank == 'g' {
        Some(6)
    } else if rank == 'H' || rank == 'h' {
        Some(7)
    } else {
        None
    }
}

/// The capital letter of a number below 8; `None` for a larger number.
pub fn convert_rank_numeric_to_alpha(rank: u8) -> (shown: Option<char>)
    ensures
        shown == if rank < 8 {
            Some(letter(rank))
        } else {
            None
        },
{
    if rank == 0 {
        Some('A')
    } else if rank == 1 {
        Some('B')
    } else if rank == 2 {
        Some('C')
    } else if rank == 3 {
        Some('D')
    } else if rank == 4 {
        Some('E')
    } else if rank == 5 {
        Some('F')
    } else if rank == 6 {
        Some('G')
    } else if rank == 7 {
        Some('H')
    } else {
        None
    }
}

/// `String::push` of the standard library: the string afterwards is the
/// string before with the character added at its end.
pub assume_specification[ String::push ](text: &mut String, c: char)
    ensures
        final(text)@ == old(text)@.push(c),
;

/// The character of a decimal digit.
fn digit(d: u64) -> (c: char)
    requires
        d < 10,
    ensures
        c == digit_char(d as int),
{
    if d == 0 {
        '0'
    } else if d == 1 {
        '1'
    } else if d == 2 {
        '2'
    } else if d == 3 {
        '3'
    } else if d == 4 {
        '4'
    } else if d == 5 {
        '5'
    } else if d == 6 {
        '6'
    } else if d == 7 {
        '7'
    } else if d == 8 {
        '8'
    } else {
        '9'
    }
}

/// Appends a number in decimal to a text.
pub fn push_decimal(text: &mut String, n: u64)
    ensures
        final(text)@ == old(text)@ + decimal(n as nat),
    decreases n,
{
    if n >= 10 {
        push_decimal(text, n / 10);
    }
    text.push(digit(n % 10));
}

/// The name of a kind of piece.
pub open spec fn kind_name(kind: PieceType) -> Seq<char> {
    match kind {
        PieceType::Pawn => "Pawn"@,
        PieceType::Knight => "Knight"@,
        PieceType::Bishop => "Bishop"@,
        PieceType::Rook => "Rook"@,
        PieceType::Queen => "Queen"@,
        PieceType::King => "King"@,
    }
}

/// The name of a colour.
pub open spec fn color_name(color: PieceColor) -> Seq<char> {
    match color {
        PieceColor::White => "White"@,
        PieceColor::Black => "Black"@,
    }
}

/// A move in short notation: the piece's letter (a blank for a pawn), the
/// letter of the destination's file and the number of its rank, counted
/// from 1.
pub open spec fn move_text(m: Move) -> Seq<char> {
    seq![glyph(m.piece.piece_type, true), letter(m.end_pos.file)] + decimal(
        (m.end_pos.rank + 1) as nat,
    )
}

/// What the move at position `ply` of a history adds to the move list:
/// White's moves open a new line that starts with the number of the turn.
pub open spec fn movelist_entry(m: Move, ply: nat) -> Seq<char> {
    (if ply % 2 == 0 {
        seq!['\n'] + decimal(ply / 2 + 1) + ". "@
    } else {
        Seq::<char>::empty()
    }) + move_text(m) + seq![' ']
}

/// The entries of the move list for a whole history.
pub open spec fn movelist_entries(history: Seq<Move>) -> Seq<char>
    decreases history.len(),
{
    if history.len() == 0 {
        Seq::<char>::empty()
    } else {
        movelist_entries(history.drop_last()) + movelist_entry(
            history.last(),
            (history.len() - 1) as nat,
        )
    }
}

/// The move list as text.
pub open spec fn movelist_text(history: Seq<Move>) -> Seq<char> {
    "Moves:"@ + movelist_entries(history)
}

/// The line of the tally for one kind: nothing while none was captured.
pub open spec fn tally_line(count: nat, kind: PieceType) -> Seq<char> {
    if count > 0 {
        "\n\t\t"@ + decimal(count) + "x "@ + kind_name(kind)
    } else {
        Seq::<char>::empty()
    }
}

/// The lines of the tally for one colour, kind by kind.
pub open spec fn tally_lines(tally: Map<(PieceColor, PieceType), nat>, color: PieceColor) -> Seq<
    char,
> {
    tally_line(tally[(color, PieceType::Pawn)], PieceType::Pawn) + tally_line(
        tally[(color, PieceType::Knight)],
        PieceType::Knight,
    ) + tally_line(tally[(color, PieceType::Bishop)], PieceType::Bishop) + tally_line(
        tally[(color, PieceType::Rook)],
        PieceType::Rook,
    ) + tally_line(tally[(color, PieceType::Queen)], PieceType::Queen) + tally_line(
        tally[(color, PieceType::King)],
        PieceType::King,
    )
}

/// Whether no piece of a colour has been captured.
pub open spec fn none_captured(tally: Map<(PieceColor, PieceType), nat>, color: PieceColor) -> bool {
    &&& tally[(color, PieceType::Pawn)] == 0
    &&& tally[(color, PieceType::Knight)] == 0
    &&& tally[(color, PieceType::Bishop)] == 0
    &&& tally[(color, PieceType::Rook)] == 0
    &&& tally[(color, PieceType::Queen)] == 0
    &&& tally[(color, PieceType::King)] == 0
}

/// The heading of one colour's part of the tally.
pub open spec fn tally_heading(color: PieceColor) -> Seq<char> {
    match color {
        PieceColor::White => "\n\tWhite pieces:"@,
        PieceColor::Black => "\n\tBlack pieces:"@,
    }
}

/// One colour's part of the tally: its heading, then its lines, or a note
/// where it has none.
pub open spec fn tally_section(tally: Map<(PieceColor, PieceType), nat>, color: PieceColor) -> Seq<
    char,
> {
    tally_heading(color) + if none_captured(tally, color) {
        "\n\t\tNo pieces have been captured yet."@
    } else {
        tally_lines(tally, color)
    }
}

/// The tally as text: White's captured pieces, then Black's.
pub open spec fn graveyard_text(tally: Map<(PieceColor, PieceType), nat>) -> Seq<char> {
    "Graveyard:"@ + tally_section(tally, PieceColor::White) + tally_section(
        tally,
        PieceColor::Black,
    )
}

/// A square as text: the letter of its piece, or a dot, and a blank.
pub open spec fn square_text(square: Option<Piece>) -> Seq<char> {
    seq![
        match square {
            Some(piece) => glyph(piece.piece_type, false),
            None => '.',
        },
        ' ',
    ]
}

/// The first `files` squares of a rank as text.
pub open spec fn rank_text(squares: Seq<Option<Piece>>, rank: int, files: int) -> Seq<char>
    decreases files,
{
    if files <= 0 {
        Seq::<char>::empty()
    } else {
        rank_text(squares, rank, files - 1) + square_text(squares[rank * 8 + files - 1])
    }
}

/// The topmost `shown` ranks as text, the eighth rank first, a line each.
pub open spec fn ranks_text(squares: Seq<Option<Piece>>, shown: int) -> Seq<char>
    decreases shown,
{
    if shown <= 0 {
        Seq::<char>::empty()
    } else {
        ranks_text(squares, shown - 1) + rank_text(squares, 8 - shown, 8) + seq!['\n']
    }
}

/// A position as text: the board, the move list and the tally, with an
/// empty line between them.
pub open spec fn board_text(position: BoardView) -> Seq<char> {
    ranks_text(position.squares, 8) + "\n\n"@ + movelist_text(position.history) + "\n\n"@
        + graveyard_text(position.tally)
}

/// Appends the tally's line for one kind.
fn push_tally_line(text: &mut String, graveyard: &Graveyard, color: PieceColor, kind: PieceType)
    ensures
        final(text)@ == old(text)@ + tally_line(graveyard@[(color, kind)], kind),
{
    let captured: u64 = graveyard.count(color, kind);
    if captured > 0 {
        text.append("\n\t\t");
        push_decimal(text, captured);
        text.append("x ");
        text.append(kind.to_string().as_str());
    }
    assert(text@ =~= old(text)@ + tally_line(graveyard@[(color, kind)], kind));
}

/// Appends one colour's part of the tally.
fn push_tally_section(text: &mut String, graveyard: &Graveyard, color: PieceColor)
    ensures
        final(text)@ == old(text)@ + tally_section(graveyard@, color),
{
    match color {
        PieceColor::White => text.append("\n\tWhite pieces:"),
        PieceColor::Black => text.append("\n\tBlack pieces:"),
    }
    let ghost headed = text@;
    let found_captured_of_color = graveyard.count(color, PieceType::Pawn) > 0 || graveyard.count(
        color,
        PieceType::Knight,
    ) > 0 || graveyard.count(color, PieceType::Bishop) > 0 || graveyard.count(
        color,
        PieceType::Rook,
    ) > 0 || graveyard.count(color, PieceType::Queen) > 0 || graveyard.count(
        color,
        PieceType::King,
    ) > 0;
    assert(found_captured_of_color == !none_captured(graveyard@, color));
    if !found_captured_of_color {
        text.append("\n\t\tNo pieces have been captured yet.");
    } else {
        push_tally_line(text, graveyard, color, PieceType::Pawn);
        push_tally_line(text, graveyard, color, PieceType::Knight);
        push_tally_line(text, graveyard, color, PieceType::Bishop);
        push_tally_line(text, graveyard, color, PieceType::Rook);
        push_tally_line(text, graveyard, color, PieceType::Queen);
        push_tally_line(text, graveyard, color, PieceType::King);
        assert(text@ =~= headed + tally_lines(graveyard@, color));
    }
    assert(headed == old(text)@ + tally_heading(color));
    assert(text@ =~= old(text)@ + tally_section(graveyard@, color));
}

/// The tally of captured pieces as text.
pub fn get_graveyard_display(board: &Board) -> (text: String)
    ensures
        text@ == graveyard_text(board@.tally),
{
    let mut output = String::from_str("Graveyard:");
    push_tally_section(&mut output, &board.graveyard, PieceColor::White);
    push_tally_section(&mut output, &board.graveyard, PieceColor::Black);
    assert(output@ =~= graveyard_text(board@.tally));
    output
}

/// The move list as text, two moves to a numbered line.
pub fn get_movelist_display(board: &Board) -> (text: String)
    requires
        board@.history_displayable(),
    ensures
        text@ == movelist_text(board@.history),
{
    let mut output = String::from_str("Moves:");
    let mut ply: usize = 0;
    while ply < board.move_list.len()
        invariant
            ply <= board.move_list.len(),
            board@.history_displayable(),
            output@ == "Moves:"@ + movelist_entries(board@.history.take(ply as int)),
        decreases board.move_list.len() - ply,
    {
        let ghost before = output@;
        if ply % 2 == 0 {
            output.push('\n');
            let turn: usize = ply / 2 + 1;
            push_decimal(&mut output, turn as u64);
            output.append(". ");
        }
        output.append(board.move_list[ply].get_move_display().as_str());
        output.push(' ');
        proof {
            let shown = board@.history.take(ply as int + 1);
            assert(shown.drop_last() =~= board@.history.take(ply as int));
            assert(shown.last() == board@.history[ply as int]);
            assert(output@ =~= before + movelist_entry(board@.history[ply as int], ply as nat));
            assert(output@ =~= "Moves:"@ + movelist_entries(shown));
        }
        ply = ply + 1;
    }
    assert(board@.history.take(ply as int) =~= board@.history);
    output
}

} // verus!
