//! What holds of the checker and the applier together.

use vstd::prelude::*;
use crate::board::{tally_total, turn_after, BoardView};
use crate::move_checker::{
    advances, check_move, distance, en_passant_target, pawn_direction, MoveError,
};
use crate::moves::{Move, MoveResult, MoveType};
use crate::piece::{Piece, PieceColor, PieceType};

verus! {

/// Whether a square holds a piece of the given colour.
pub open spec fn holds(square: Option<Piece>, color: PieceColor) -> bool {
    square matches Some(piece) && piece.color == color
}

/// The number of pieces of one colour on the squares.
pub open spec fn material(squares: Seq<Option<Piece>>, color: PieceColor) -> nat
    decreases squares.len(),
{
    if squares.len() == 0 {
        0
    } else {
        material(squares.drop_last(), color) + if holds(squares.last(), color) {
            1nat
        } else {
            0nat
        }
    }
}

/// The number of occupied squares.
pub open spec fn occupied(squares: Seq<Option<Piece>>) -> nat {
    material(squares, PieceColor::White) + material(squares, PieceColor::Black)
}

/// Replacing the content of one square changes the material of a colour by
/// what the square gains less what it loses.
pub proof fn lemma_material_update(
    squares: Seq<Option<Piece>>,
    slot: int,
    content: Option<Piece>,
    color: PieceColor,
)
    requires
        0 <= slot < squares.len(),
    ensures
        material(squares.update(slot, content), color) + (if holds(squares[slot], color) {
            1nat
        } else {
            0nat
        }) == material(squares, color) + (if holds(content, color) {
            1nat
        } else {
            0nat
        }),
    decreases squares.len(),
{
    let updated = squares.update(slot, content);
    if slot == squares.len() - 1 {
        assert(updated.drop_last() =~= squares.drop_last());
    } else {
        assert(updated.drop_last() =~= squares.drop_last().update(slot, content));
        lemma_material_update(squares.drop_last(), slot, content, color);
    }
}

/// The position reached from `start` by committing `moves` in order.
pub open spec fn play(start: BoardView, moves: Seq<Move>) -> BoardView
    decreases moves.len(),
{
    if moves.len() == 0 {
        start
    } else {
        play(start, moves.drop_last()).apply(moves.last())
    }
}

/// The checker and the applier agree: in a well-formed position, a move
/// that the checker accepts, made from a square of the board, can be
/// committed. In particular the square on which it captures holds a piece.
/// Its start and its destination differ.
pub proof fn law_legal_move_can_be_applied(position: BoardView, m: Move)
    requires
        position.wf(),
        m.start_pos.on_board(),
        check_move(position, m.piece, m.start_pos, m.end_pos) == Ok::<MoveResult, MoveError>(
            m.verdict(),
        ),
    ensures
        position.can_apply(m),
        m.start_pos != m.end_pos,
        m.capture_square() matches Some(loc) ==> (position.occupant(loc) matches Some(taken)
            && taken.color != m.piece.color),
{
    lemma_en_passant_takes_last_mover(position, m);
}

/// A legal en passant capture takes the pawn that moved last: the square
/// beside the mover, on the destination's file, is where the last move ended.
pub proof fn lemma_en_passant_takes_last_mover(position: BoardView, m: Move)
    requires
        check_move(position, m.piece, m.start_pos, m.end_pos) == Ok::<MoveResult, MoveError>(
            m.verdict(),
        ),
    ensures
        m.move_type == MoveType::EnPassant ==> {
            &&& m.capturing
            &&& position.occupant(m.end_pos) is None
            &&& position.previous_move() matches Some(last)
            &&& m.capture_square() == Some(last.end_pos)
            &&& last.piece.color != m.piece.color
        },
{
    if m.move_type == MoveType::EnPassant {
        assert(m.piece.piece_type == PieceType::Pawn);
        assert(en_passant_target(position, m.piece, m.end_pos));
        let last = position.previous_move().unwrap();
        assert(distance(m.end_pos.rank, m.start_pos.rank) == 1);
        assert(advances(m.piece.color, m.start_pos, m.end_pos));
        assert(m.start_pos.rank == last.end_pos.rank) by (nonlinear_arith)
            requires
                distance(m.end_pos.rank, m.start_pos.rank) == 1,
                advances(m.piece.color, m.start_pos, m.end_pos),
                m.end_pos.rank == last.end_pos.rank + pawn_direction(m.piece.color),
        {
        }
    }
}

/// A legal move that does not capture leaves the tally and the number of
/// occupied squares as they were, provided that a piece stands on the
/// square it starts from and, for castling, that the king's destination is
/// empty.
pub proof fn law_quiet_move_keeps_tally_and_material(position: BoardView, m: Move)
    requires
        position.squares.len() == 64,
        check_move(position, m.piece, m.start_pos, m.end_pos) == Ok::<MoveResult, MoveError>(
            m.verdict(),
        ),
        !m.capturing,
        position.occupant(m.start_pos) is Some,
        m.move_type == MoveType::Castling ==> position.occupant(m.end_pos) is None,
    ensures
        position.apply(m).tally == position.tally,
        occupied(position.apply(m).squares) == occupied(position.squares),
{
    let placed = position.squares.update(m.end_pos.index(), Some(m.piece.moved()));
    lemma_material_update(position.squares, m.end_pos.index(), Some(m.piece.moved()), PieceColor::White);
    lemma_material_update(position.squares, m.end_pos.index(), Some(m.piece.moved()), PieceColor::Black);
    lemma_material_update(placed, m.start_pos.index(), None, PieceColor::White);
    lemma_material_update(placed, m.start_pos.index(), None, PieceColor::Black);
}

/// A legal capture, normal or en passant, takes exactly one piece off the
/// board, a piece of the other colour, and raises exactly one counter of the
/// tally, that of the colour and kind taken, by one. This holds in a
/// position whose last move is in place, provided that a piece stands on
/// the square the move starts from. Where that piece has the mover's colour,
/// the mover's side keeps its material and the other side loses one piece.
pub proof fn law_capture_removes_one_piece(position: BoardView, m: Move)
    requires
        position.squares.len() == 64,
        position.tally_is_total(),
        position.last_move_in_place(),
        check_move(position, m.piece, m.start_pos, m.end_pos) == Ok::<MoveResult, MoveError>(
            m.verdict(),
        ),
        m.capturing,
        m.move_type == MoveType::Normal || m.move_type == MoveType::EnPassant,
        position.occupant(m.start_pos) is Some,
    ensures
        m.capture_square() is Some,
        position.occupant(m.capture_square().unwrap()) matches Some(taken) && {
            &&& taken.color != m.piece.color
            &&& position.apply(m).tally == position.tally.insert(
                (taken.color, taken.piece_type),
                position.tally[(taken.color, taken.piece_type)] + 1,
            )
        },
        tally_total(position.apply(m).tally) == tally_total(position.tally) + 1,
        occupied(position.apply(m).squares) + 1 == occupied(position.squares),
        holds(position.occupant(m.start_pos), m.piece.color) ==> {
            &&& material(position.apply(m).squares, m.piece.color) == material(
                position.squares,
                m.piece.color,
            )
            &&& material(position.apply(m).squares, m.piece.color.flipped()) + 1 == material(
                position.squares,
                m.piece.color.flipped(),
            )
        },
{
    lemma_en_passant_takes_last_mover(position, m);
    let taken_at = m.capture_square().unwrap();
    let lifted = position.squares.update(taken_at.index(), None);
    let placed = lifted.update(m.end_pos.index(), Some(m.piece.moved()));
    lemma_material_update(position.squares, taken_at.index(), None, PieceColor::White);
    lemma_material_update(position.squares, taken_at.index(), None, PieceColor::Black);
    lemma_material_update(lifted, m.end_pos.index(), Some(m.piece.moved()), PieceColor::White);
    lemma_material_update(lifted, m.end_pos.index(), Some(m.piece.moved()), PieceColor::Black);
    lemma_material_update(placed, m.start_pos.index(), None, PieceColor::White);
    lemma_material_update(placed, m.start_pos.index(), None, PieceColor::Black);
}

/// Committing a move never shortens or reorders the history, which grows by
/// exactly that move, and never lowers a counter of the tally.
pub proof fn law_history_and_tally_only_grow(position: BoardView, m: Move)
    requires
        position.tally_is_total(),
    ensures
        position.apply(m).history.len() == position.history.len() + 1,
        position.apply(m).history.drop_last() == position.history,
        position.apply(m).history.last() == m,
        forall|color: PieceColor, kind: PieceType| #[trigger]
            position.apply(m).tally[(color, kind)] >= position.tally[(color, kind)],
        tally_total(position.apply(m).tally) <= tally_total(position.tally) + 1,
{
    assert(position.apply(m).history.drop_last() =~= position.history);
}

/// After any number of moves committed from the starting position, the
/// history holds exactly those moves, and it is White's turn if and only if
/// their number is even.
pub proof fn law_turn_alternates(moves: Seq<Move>)
    ensures
        play(BoardView::initial(), moves).history == moves,
        play(BoardView::initial(), moves).turn == turn_after(moves.len()),
        play(BoardView::initial(), moves).turn == PieceColor::White <==> moves.len() % 2 == 0,
    decreases moves.len(),
{
    if moves.len() > 0 {
        law_turn_alternates(moves.drop_last());
        assert(moves.drop_last().push(moves.last()) =~= moves);
    }
}

/// Two verdicts of the checker on the same position and the same candidate
/// move are equal: the verdict depends on nothing else.
pub proof fn law_check_is_repeatable(
    position: BoardView,
    m: Move,
    first: Result<MoveResult, MoveError>,
    second: Result<MoveResult, MoveError>,
)
    requires
        first == check_move(position, m.piece, m.start_pos, m.end_pos),
        second == check_move(position, m.piece, m.start_pos, m.end_pos),
    ensures
        first == second,
{
}

} // verus!
