//! The position store: the 64 squares, whose turn it is, the move history
//! and the tally of captured pieces, together with the move applier.

use vstd::prelude::*;
use vstd::string::*;
use crate::board_display::{
    board_text, get_graveyard_display, get_movelist_display, get_piece_display, rank_text,
    ranks_text,
};
use crate::laws::law_legal_move_can_be_applied;
use crate::move_checker::{check_move, is_valid_move, MoveError};
use crate::moves::{Move, MoveType};
use crate::piece::{Piece, PieceColor, PieceLoc, PieceType};

verus! {

/// Position of a colour in the tally's storage.
pub open spec fn color_slot(color: PieceColor) -> int {
    match color {
        PieceColor::White => 0,
        PieceColor::Black => 1,
    }
}

/// Position of a kind within one colour's part of the tally's storage.
pub open spec fn kind_slot(kind: PieceType) -> int {
    match kind {
        PieceType::Pawn => 0,
        PieceType::Knight => 1,
        PieceType::Bishop => 2,
        PieceType::Rook => 3,
        PieceType::Queen => 4,
        PieceType::King => 5,
    }
}

/// Position of a (colour, kind) counter in the tally's storage.
pub open spec fn tally_slot(color: PieceColor, kind: PieceType) -> int {
    color_slot(color) * 6 + kind_slot(kind)
}

/// The tally in which nothing has been captured.
pub open spec fn empty_tally() -> Map<(PieceColor, PieceType), nat> {
    Map::new(|key: (PieceColor, PieceType)| true, |key: (PieceColor, PieceType)| 0nat)
}

/// The number of captured pieces that a tally holds, all colours and kinds together.
pub open spec fn tally_total(tally: Map<(PieceColor, PieceType), nat>) -> nat {
    tally[(PieceColor::White, PieceType::Pawn)] + tally[(PieceColor::White, PieceType::Knight)]
        + tally[(PieceColor::White, PieceType::Bishop)] + tally[(PieceColor::White, PieceType::Rook)]
        + tally[(PieceColor::White, PieceType::Queen)] + tally[(PieceColor::White, PieceType::King)]
        + tally[(PieceColor::Black, PieceType::Pawn)] + tally[(PieceColor::Black, PieceType::Knight)]
        + tally[(PieceColor::Black, PieceType::Bishop)] + tally[(PieceColor::Black, PieceType::Rook)]
        + tally[(PieceColor::Black, PieceType::Queen)] + tally[(PieceColor::Black, PieceType::King)]
}

/// The sum of the first `slots` counters of a tally's storage.
pub open spec fn counts_sum(counts: Seq<u64>, slots: int) -> nat
    decreases slots,
{
    if slots <= 0 {
        0
    } else {
        counts_sum(counts, slots - 1) + counts[slots - 1] as nat
    }
}

/// The tally of captured pieces: one counter per colour and kind.
#[derive(Copy, Clone, Debug)]
pub struct Graveyard {
    pub counts: [u64; 12],
}

impl View for Graveyard {
    type V = Map<(PieceColor, PieceType), nat>;

    /// The tally as a total map from (colour, kind) to the number captured.
    open spec fn view(&self) -> Map<(PieceColor, PieceType), nat> {
        Map::new(
            |key: (PieceColor, PieceType)| true,
            |key: (PieceColor, PieceType)| self.counts[tally_slot(key.0, key.1)] as nat,
        )
    }
}

impl Graveyard {
    /// A tally with every counter at zero.
    pub fn new() -> (empty: Graveyard)
        ensures
            empty@ == empty_tally(),
    {
        let empty = Graveyard { counts: [0u64; 12] };
        assert(empty@ =~= empty_tally());
        empty
    }

    fn slot(color: PieceColor, kind: PieceType) -> (slot: usize)
        ensures
            slot == tally_slot(color, kind),
            slot < 12,
    {
        let base: usize = match color {
            PieceColor::White => 0,
            PieceColor::Black => 6,
        };
        let offset: usize = match kind {
            PieceType::Pawn => 0,
            PieceType::Knight => 1,
            PieceType::Bishop => 2,
            PieceType::Rook => 3,
            PieceType::Queen => 4,
            PieceType::King => 5,
        };
        base + offset
    }

    /// How many pieces of this colour and kind have been captured.
    pub fn count(&self, color: PieceColor, kind: PieceType) -> (captured: u64)
        ensures
            captured == self@[(color, kind)],
    {
        self.counts[Self::slot(color, kind)]
    }

    /// Counts one more captured piece of this colour and kind.
    pub fn record(&mut self, color: PieceColor, kind: PieceType)
        requires
            old(self)@[(color, kind)] < u64::MAX,
        ensures
            final(self)@ == old(self)@.insert((color, kind), old(self)@[(color, kind)] + 1),
    {
        let slot: usize = Self::slot(color, kind);
        self.counts[slot] = self.counts[slot] + 1;
        proof {
            assert forall|c: PieceColor, k: PieceType| (c, k) != (color, kind) implies tally_slot(
                c,
                k,
            ) != tally_slot(color, kind) by {}
            assert(self@ =~= old(self)@.insert(
                (color, kind),
                (old(self)@[(color, kind)] + 1) as nat,
            ));
        }
    }
}

/// The counters of a tally's storage add up to the tally's total.
pub proof fn lemma_counts_sum_is_tally_total(graveyard: Graveyard)
    ensures
        counts_sum(graveyard.counts@, 12) == tally_total(graveyard@),
{
    reveal_with_fuel(counts_sum, 13);
}

/// The kind of piece that starts on the given file of a back rank.
pub open spec fn back_rank_kind(file: int) -> PieceType {
    if file == 0 || file == 7 {
        PieceType::Rook
    } else if file == 1 || file == 6 {
        PieceType::Knight
    } else if file == 2 || file == 5 {
        PieceType::Bishop
    } else if file == 3 {
        PieceType::Queen
    } else {
        PieceType::King
    }
}

/// What stands on slot `slot` of the board when a game starts.
pub open spec fn standard_square(slot: int) -> Option<Piece> {
    let rank = slot / 8;
    let file = slot % 8;
    if rank == 0 {
        Some(Piece { piece_type: back_rank_kind(file), color: PieceColor::White, has_moved: false })
    } else if rank == 1 {
        Some(Piece { piece_type: PieceType::Pawn, color: PieceColor::White, has_moved: false })
    } else if rank == 6 {
        Some(Piece { piece_type: PieceType::Pawn, color: PieceColor::Black, has_moved: false })
    } else if rank == 7 {
        Some(Piece { piece_type: back_rank_kind(file), color: PieceColor::Black, has_moved: false })
    } else {
        None
    }
}

/// The 64 squares as they stand when a game starts.
pub open spec fn standard_layout() -> Seq<Option<Piece>> {
    Seq::new(64, |slot: int| standard_square(slot))
}

/// How many moves of a history take a piece off the board.
pub open spec fn captures_in(history: Seq<Move>) -> nat
    decreases history.len(),
{
    if history.len() == 0 {
        0
    } else {
        captures_in(history.drop_last()) + if history.last().capture_square() is Some {
            1nat
        } else {
            0nat
        }
    }
}

/// The side to move after `plies` moves of a game that White opened.
pub open spec fn turn_after(plies: nat) -> PieceColor {
    if plies % 2 == 0 {
        PieceColor::White
    } else {
        PieceColor::Black
    }
}

/// The mathematical value of a position.
pub struct BoardView {
    /// The side to move.
    pub turn: PieceColor,
    /// The committed moves, most recent last.
    pub history: Seq<Move>,
    /// The occupant of each of the 64 squares, rank by rank.
    pub squares: Seq<Option<Piece>>,
    /// The number of captured pieces of each colour and kind.
    pub tally: Map<(PieceColor, PieceType), nat>,
}

impl BoardView {
    /// The position in which a game starts.
    pub open spec fn initial() -> BoardView {
        BoardView {
            turn: PieceColor::White,
            history: Seq::empty(),
            squares: standard_layout(),
            tally: empty_tally(),
        }
    }

    /// The piece on a square; nothing for a coordinate off the board.
    pub open spec fn occupant(self, loc: PieceLoc) -> Option<Piece> {
        if loc.on_board() && loc.index() < self.squares.len() {
            self.squares[loc.index()]
        } else {
            None
        }
    }

    /// The most recent committed move, if any.
    pub open spec fn previous_move(self) -> Option<Move> {
        if self.history.len() > 0 {
            Some(self.history.last())
        } else {
            None
        }
    }

    /// The tally after the occupant of `square`, if there is one, has been
    /// counted as captured.
    pub open spec fn tally_after_capture(self, square: Option<PieceLoc>) -> Map<
        (PieceColor, PieceType),
        nat,
    > {
        match square {
            Some(loc) => match self.occupant(loc) {
                Some(taken) => self.tally.insert(
                    (taken.color, taken.piece_type),
                    self.tally[(taken.color, taken.piece_type)] + 1,
                ),
                None => self.tally,
            },
            None => self.tally,
        }
    }

    /// The squares after the occupant of `square` has been lifted off.
    pub open spec fn squares_after_capture(self, square: Option<PieceLoc>) -> Seq<Option<Piece>> {
        match square {
            Some(loc) => self.squares.update(loc.index(), None),
            None => self.squares,
        }
    }

    /// The position that follows when `m` is committed: the captured piece,
    /// if any, leaves its square and is counted; the mover, marked as moved,
    /// is put on its destination and its start is cleared; the move joins the
    /// history; the turn passes to the other side.
    pub open spec fn apply(self, m: Move) -> BoardView {
        BoardView {
            turn: self.turn.flipped(),
            history: self.history.push(m),
            squares: self.squares_after_capture(m.capture_square()).update(
                m.end_pos.index(),
                Some(m.piece.moved()),
            ).update(m.start_pos.index(), None),
            tally: self.tally_after_capture(m.capture_square()),
        }
    }

    /// Whether `m` can be committed here: its squares lie on the board, and
    /// the square it captures on, if any, holds a piece.
    pub open spec fn can_apply(self, m: Move) -> bool {
        &&& m.start_pos.on_board()
        &&& m.end_pos.on_board()
        &&& m.capture_square() matches Some(loc) ==> self.occupant(loc) is Some
    }

    /// The counter of the piece that stands on `square`, if there is a square
    /// and a piece on it, can still be raised.
    pub open spec fn has_room_for(self, square: Option<PieceLoc>) -> bool {
        square matches Some(loc) ==> (self.occupant(loc) matches Some(taken) ==> self.tally[(
            taken.color,
            taken.piece_type,
        )] < u64::MAX)
    }

    /// No more pieces are counted as captured than moves were made. While
    /// this holds, counting one more capture cannot overflow a counter.
    pub open spec fn tally_within_history(self) -> bool {
        tally_total(self.tally) <= self.history.len()
    }

    /// The tally has a counter for every colour and kind.
    pub open spec fn tally_is_total(self) -> bool {
        forall|key: (PieceColor, PieceType)| self.tally.dom().contains(key)
    }

    /// The piece moved last stands, marked as moved, where its move ended.
    pub open spec fn last_move_in_place(self) -> bool {
        self.previous_move() matches Some(last) ==> last.end_pos.on_board() && self.occupant(
            last.end_pos,
        ) == Some(last.piece.moved())
    }

    /// Every move of the history ended on the board.
    pub open spec fn history_on_board(self) -> bool {
        forall|ply: int| 0 <= ply < self.history.len() ==> (#[trigger] self.history[ply]).end_pos.on_board()
    }

    /// Every move of the history can be written in short notation.
    pub open spec fn history_displayable(self) -> bool {
        forall|ply: int| 0 <= ply < self.history.len() ==> (#[trigger] self.history[ply]).displayable()
    }

    /// Well-formedness of a position: there are 64 squares; White moves after
    /// an even number of moves and Black after an odd number; the tally has
    /// every counter and holds as many pieces as the moves of the history
    /// have captured; every move of the history ended on the board; and the
    /// piece moved last stands where its move ended.
    pub open spec fn wf(self) -> bool {
        &&& self.squares.len() == 64
        &&& self.tally_is_total()
        &&& self.history_on_board()
        &&& self.turn == turn_after(self.history.len())
        &&& tally_total(self.tally) == captures_in(self.history)
        &&& self.last_move_in_place()
    }
}

/// A history has no more capturing moves than it has moves.
pub proof fn lemma_captures_bounded(history: Seq<Move>)
    ensures
        captures_in(history) <= history.len(),
    decreases history.len(),
{
    if history.len() > 0 {
        lemma_captures_bounded(history.drop_last());
    }
}

/// Committing a move whose start and destination differ keeps a position
/// well formed.
pub proof fn lemma_apply_preserves_wf(position: BoardView, m: Move)
    requires
        position.wf(),
        position.can_apply(m),
        m.start_pos != m.end_pos,
    ensures
        position.apply(m).wf(),
{
    let next = position.apply(m);
    assert(next.history.drop_last() =~= position.history);
    assert(next.history.last() == m);
    assert(m.start_pos.index() != m.end_pos.index());
}

/// The position store.
#[derive(Debug)]
pub struct Board {
    pub current_turn: PieceColor,
    pub move_list: Vec<Move>,
    pub board: [Option<Piece>; 64],
    pub graveyard: Graveyard,
}

impl Clone for Board {
    /// An independent copy of the position, equal in value.
    fn clone(&self) -> (copy: Board)
        ensures
            copy@ == self@,
    {
        let mut move_list: Vec<Move> = Vec::new();
        let mut i: usize = 0;
        while i < self.move_list.len()
            invariant
                i <= self.move_list.len(),
                move_list@ == self.move_list@.take(i as int),
            decreases self.move_list.len() - i,
        {
            move_list.push(self.move_list[i]);
            i = i + 1;
        }
        assert(self.move_list@.take(i as int) =~= self.move_list@);
        Board {
            current_turn: self.current_turn,
            move_list,
            board: self.board,
            graveyard: self.graveyard,
        }
    }
}

impl View for Board {
    type V = BoardView;

    open spec fn view(&self) -> BoardView {
        BoardView {
            turn: self.current_turn,
            history: self.move_list@,
            squares: self.board@,
            tally: self.graveyard@,
        }
    }
}

impl Board {
    /// The standard starting position: 32 pieces, White to move, no history,
    /// nothing captured.
    pub fn new() -> (fresh: Board)
        ensures
            fresh@ == BoardView::initial(),
            fresh@.wf(),
    {
        let fresh = Board {
            current_turn: PieceColor::White,
            move_list: Vec::new(),
            board: Board::generate_default_board(),
            graveyard: Board::generate_empty_graveyard(),
        };
        assert(fresh@.history =~= Seq::<Move>::empty());
        fresh
    }

    /// The 64 squares of the starting position.
    pub fn generate_default_board() -> (squares: [Option<Piece>; 64])
        ensures
            squares@ == standard_layout(),
    {
        let mut board: [Option<Piece>; 64] = [None; 64];

        board[0] = Some(Piece::new(PieceType::Rook, PieceColor::White));
        board[1] = Some(Piece::new(PieceType::Knight, PieceColor::White));
        board[2] = Some(Piece::new(PieceType::Bishop, PieceColor::White));
        board[3] = Some(Piece::new(PieceType::Queen, PieceColor::White));
        board[4] = Some(Piece::new(PieceType::King, PieceColor::White));
        board[5] = Some(Piece::new(PieceType::Bishop, PieceColor::White));
        board[6] = Some(Piece::new(PieceType::Knight, PieceColor::White));
        board[7] = Some(Piece::new(PieceType::Rook, PieceColor::White));

        let mut file: usize = 0;
        while file < 8
            invariant
                file <= 8,
                forall|slot: int| 0 <= slot < 8 ==> board@[slot] == standard_square(slot),
                forall|slot: int| 8 <= slot < 8 + file ==> board@[slot] == standard_square(slot),
                forall|slot: int| 48 <= slot < 48 + file ==> board@[slot] == standard_square(slot),
                forall|slot: int| 8 + file <= slot < 48 ==> board@[slot] == None::<Piece>,
                forall|slot: int| 48 + file <= slot < 64 ==> board@[slot] == None::<Piece>,
            decreases 8 - file,
        {
            board[8 + file] = Some(Piece::new(PieceType::Pawn, PieceColor::White));
            board[48 + file] = Some(Piece::new(PieceType::Pawn, PieceColor::Black));
            file = file + 1;
        }

        board[56] = Some(Piece::new(PieceType::Rook, PieceColor::Black));
        board[57] = Some(Piece::new(PieceType::Knight, PieceColor::Black));
        board[58] = Some(Piece::new(PieceType::Bishop, PieceColor::Black));
        board[59] = Some(Piece::new(PieceType::Queen, PieceColor::Black));
        board[60] = Some(Piece::new(PieceType::King, PieceColor::Black));
        board[61] = Some(Piece::new(PieceType::Bishop, PieceColor::Black));
        board[62] = Some(Piece::new(PieceType::Knight, PieceColor::Black));
        board[63] = Some(Piece::new(PieceType::Rook, PieceColor::Black));

        assert(board@ =~= standard_layout());
        board
    }

    /// The tally of a game in which nothing has been captured yet.
    pub fn generate_empty_graveyard() -> (tally: Graveyard)
        ensures
            tally@ == empty_tally(),
    {
        Graveyard::new()
    }

    /// Whether the position is well formed. A position made by [`Board::new`]
    /// and changed only by committing moves always is; one whose fields were
    /// set by hand may not be.
    pub fn is_well_formed(&self) -> (ok: bool)
        ensures
            ok == self@.wf(),
    {
        let played: usize = self.move_list.len();
        let mut captures: usize = 0;
        let mut ply: usize = 0;
        while ply < played
            invariant
                played == self.move_list.len(),
                ply <= played,
                captures == captures_in(self@.history.take(ply as int)),
                captures <= ply,
                forall|i: int| 0 <= i < ply ==> (#[trigger] self@.history[i]).end_pos.on_board(),
            decreases played - ply,
        {
            let m = self.move_list[ply];
            if !PieceLoc::is_valid(m.end_pos.rank, m.end_pos.file) {
                return false;
            }
            proof {
                let seen = self@.history.take(ply as int + 1);
                assert(seen.drop_last() =~= self@.history.take(ply as int));
                assert(seen.last() == m);
            }
            if m.capturing && (m.move_type == MoveType::Normal || m.move_type
                == MoveType::EnPassant) {
                captures = captures + 1;
            }
            ply = ply + 1;
        }
        assert(self@.history.take(ply as int) =~= self@.history);

        let mut total: u128 = 0;
        let mut slot: usize = 0;
        while slot < 12
            invariant
                slot <= 12,
                total == counts_sum(self.graveyard.counts@, slot as int),
                total <= slot * u64::MAX,
            decreases 12 - slot,
        {
            total = total + self.graveyard.counts[slot] as u128;
            slot = slot + 1;
        }
        proof {
            lemma_counts_sum_is_tally_total(self.graveyard);
        }
        let turn_fits = match self.current_turn {
            PieceColor::White => played % 2 == 0,
            PieceColor::Black => played % 2 == 1,
        };
        let last_in_place = if played > 0 {
            let last = self.move_list[played - 1];
            let mut moved = last.piece;
            moved.has_moved = true;
            match self.get_piece_at_location(last.end_pos) {
                Some(standing) => standing == moved,
                None => false,
            }
        } else {
            true
        };
        turn_fits && total == captures as u128 && last_in_place
    }

    /// The slot of a coordinate in the board array.
    pub fn get_board_index_from_loc(&self, loc: PieceLoc) -> (slot: usize)
        ensures
            slot == loc.index(),
    {
        let rank: usize = loc.rank as usize;
        let file: usize = loc.file as usize;
        rank * 8 + file
    }

    /// The piece on a square. The lookup is total: an empty square and a
    /// coordinate off the board both give `None`.
    pub fn get_piece_at_location(&self, loc: PieceLoc) -> (occupant: Option<Piece>)
        ensures
            occupant == self@.occupant(loc),
    {
        if PieceLoc::is_valid(loc.rank, loc.file) {
            self.board[self.get_board_index_from_loc(loc)]
        } else {
            None
        }
    }

    /// The board slot of the square on which `m` captures, if it captures.
    pub fn get_captured_piece_idx(&self, m: &Move) -> (slot: Option<usize>)
        ensures
            m.capture_square() is None <==> slot is None,
            m.capture_square() matches Some(loc) ==> slot == Some(loc.index() as usize),
    {
        if !m.capturing {
            None
        } else {
            match m.move_type {
                MoveType::Normal => Some(self.get_board_index_from_loc(m.end_pos)),
                MoveType::EnPassant => Some(
                    self.get_board_index_from_loc(
                        PieceLoc { rank: m.start_pos.rank, file: m.end_pos.file },
                    ),
                ),
                MoveType::Castling => None,
            }
        }
    }

    /// Takes the piece that `m` captures, if any, off its square and counts
    /// it in the tally.
    pub fn handle_move_piece_to_graveyard(&mut self, m: &Move)
        requires
            m.capture_square() matches Some(loc) ==> loc.on_board(),
            old(self)@.has_room_for(m.capture_square()),
        ensures
            final(self)@ == (BoardView {
                squares: old(self)@.squares_after_capture(m.capture_square()),
                tally: old(self)@.tally_after_capture(m.capture_square()),
                ..old(self)@
            }),
    {
        if let Some(slot) = self.get_captured_piece_idx(m) {
            if let Some(taken) = self.board[slot] {
                self.graveyard.record(taken.color, taken.piece_type);
            }
            self.board[slot] = None;
        }
    }

    /// Puts the moved piece, marked as moved, on its destination and clears
    /// the square it came from.
    pub fn handle_moving_piece(&mut self, m: &Move)
        requires
            m.start_pos.on_board(),
            m.end_pos.on_board(),
        ensures
            final(self)@ == (BoardView {
                squares: old(self)@.squares.update(m.end_pos.index(), Some(m.piece.moved())).update(
                    m.start_pos.index(),
                    None,
                ),
                ..old(self)@
            }),
    {
        let mut selected_piece = m.piece;
        selected_piece.has_moved = true;

        let start_board_idx: usize = self.get_board_index_from_loc(m.start_pos);
        let end_board_idx: usize = self.get_board_index_from_loc(m.end_pos);

        self.board[end_board_idx] = Some(selected_piece);
        self.board[start_board_idx] = None;
    }

    /// Appends `new_move` to the history.
    pub fn record_move(&mut self, new_move: &Move)
        ensures
            final(self)@ == (BoardView {
                history: old(self)@.history.push(*new_move),
                ..old(self)@
            }),
    {
        self.move_list.push(*new_move);
    }

    /// Commits a move that has already been judged legal and gives the
    /// position that follows. Legality is not examined again.
    pub fn apply(self, new_move: Move) -> (next: Board)
        requires
            self@.can_apply(new_move),
            self@.tally_within_history(),
        ensures
            next@ == self@.apply(new_move),
    {
        let mut next = self;
        next.record_move(&new_move);
        proof {
            // The history grew by one and still fits in memory, so every
            // counter is below the largest value it can hold.
            assert(next@.history.len() == self@.history.len() + 1);
            assert(next.move_list@.len() == next.move_list.len() <= usize::MAX);
            assert forall|color: PieceColor, kind: PieceType|
                #[trigger] next@.tally[(color, kind)] <= tally_total(next@.tally) by {}
        }
        next.handle_move_piece_to_graveyard(&new_move);
        next.handle_moving_piece(&new_move);
        next.current_turn = next.current_turn.flip();
        next
    }

    /// Judges the candidate move that `new_move` describes by its piece,
    /// start and destination, and commits it if it is legal. The verdict of
    /// the checker, not the classification that `new_move` carries, decides
    /// what is committed and recorded. A rejected move gives back the
    /// position as it came, with the reason.
    pub fn try_move_piece(self, new_move: Move) -> (outcome: (Board, Option<MoveError>))
        requires
            self@.wf(),
            new_move.start_pos.on_board(),
        ensures
            match check_move(self@, new_move.piece, new_move.start_pos, new_move.end_pos) {
                Ok(verdict) => {
                    &&& outcome.1 is None
                    &&& outcome.0@ == self@.apply(
                        Move {
                            move_type: verdict.move_type,
                            capturing: verdict.capturing,
                            ..new_move
                        },
                    )
                },
                Err(reason) => outcome.1 == Some(reason) && outcome.0 == self,
            },
            outcome.0@.wf(),
    {
        match is_valid_move(&self, &new_move.piece, &new_move.start_pos, &new_move.end_pos) {
            Ok(verdict) => {
                let judged = Move {
                    piece: new_move.piece,
                    start_pos: new_move.start_pos,
                    end_pos: new_move.end_pos,
                    move_type: verdict.move_type,
                    capturing: verdict.capturing,
                };
                proof {
                    law_legal_move_can_be_applied(self@, judged);
                    lemma_captures_bounded(self@.history);
                    lemma_apply_preserves_wf(self@, judged);
                }
                (self.apply(judged), None)
            },
            Err(reason) => (self, Some(reason)),
        }
    }

    /// Judges the candidate move and commits it if it is legal; a rejected
    /// move leaves the position as it was.
    pub fn move_piece(self, new_move: Move) -> (next: Board)
        requires
            self@.wf(),
            new_move.start_pos.on_board(),
        ensures
            match check_move(self@, new_move.piece, new_move.start_pos, new_move.end_pos) {
                Ok(verdict) => next@ == self@.apply(
                    Move { move_type: verdict.move_type, capturing: verdict.capturing, ..new_move },
                ),
                Err(reason) => next == self,
            },
            next@.wf(),
    {
        self.try_move_piece(new_move).0
    }

    /// The position as text: the board from the eighth rank down to the
    /// first, a letter for each piece and a dot for each empty square; then
    /// the move list; then the tally of captured pieces.
    pub fn to_string(&self) -> (text: String)
        requires
            self@.history_displayable(),
        ensures
            text@ == board_text(self@),
    {
        let mut output = String::new();
        let mut shown: usize = 0;
        while shown < 8
            invariant
                shown <= 8,
                output@ == ranks_text(self@.squares, shown as int),
            decreases 8 - shown,
        {
            let rank: usize = 7 - shown;
            let ghost above = output@;
            let mut file: usize = 0;
            while file < 8
                invariant
                    file <= 8,
                    rank < 8,
                    output@ == above + rank_text(self@.squares, rank as int, file as int),
                decreases 8 - file,
            {
                let display_char = match self.board[rank * 8 + file] {
                    Some(piece) => get_piece_display(&piece, false),
                    None => '.',
                };
                output.push(display_char);
                output.push(' ');
                assert(output@ =~= above + rank_text(self@.squares, rank as int, file as int + 1));
                file = file + 1;
            }
            output.push('\n');
            assert(output@ =~= ranks_text(self@.squares, shown as int + 1));
            shown = shown + 1;
        }
        output.append("\n\n");
        output.append(get_movelist_display(self).as_str());
        output.append("\n\n");
        output.append(get_graveyard_display(self).as_str());
        assert(output@ =~= board_text(self@));
        output
    }

    /// The most recent committed move, if any.
    pub fn get_previous_move(&self) -> (last: Option<Move>)
        ensures
            last == self@.previous_move(),
    {
        let played: usize = self.move_list.len();
        if played > 0 {
            Some(self.move_list[played - 1])
        } else {
            None
        }
    }
}

} // verus!
