use chess::board::Board;
use chess::board_display::{
    convert_rank_alpha_to_numeric, convert_rank_numeric_to_alpha, get_graveyard_display,
    get_movelist_display, get_piece_display, push_decimal,
};
use chess::move_checker::MoveError;
use chess::moves::{Move, MoveType};
use chess::piece::{Piece, PieceColor, PieceLoc, PieceType};

fn play(board: Board, from: (u8, u8), to: (u8, u8)) -> Board {
    let piece = board
        .get_piece_at_location(PieceLoc::new(from.0, from.1))
        .unwrap();
    let (next, rejection) = board.try_move_piece(Move {
        piece,
        start_pos: PieceLoc::new(from.0, from.1),
        end_pos: PieceLoc::new(to.0, to.1),
        move_type: MoveType::Normal,
        capturing: false,
    });
    assert_eq!(None, rejection);
    next
}

#[test]
fn piece_letters() {
    let letters = [
        (PieceType::Pawn, 'P'),
        (PieceType::Knight, 'N'),
        (PieceType::Bishop, 'B'),
        (PieceType::Rook, 'R'),
        (PieceType::Queen, 'Q'),
        (PieceType::King, 'K'),
    ];
    for (kind, letter) in letters {
        let piece = Piece::new(kind, PieceColor::White);
        assert_eq!(letter, get_piece_display(&piece, false));
        if kind != PieceType::Pawn {
            assert_eq!(letter, get_piece_display(&piece, true));
        }
    }
    let pawn = Piece::new(PieceType::Pawn, PieceColor::Black);
    assert_eq!(' ', get_piece_display(&pawn, true));
}

#[test]
fn numbers_to_letters_and_back() {
    let letters = ['A', 'B', 'C', 'D', 'E', 'F', 'G', 'H'];
    for n in 0..8u8 {
        let letter = letters[n as usize];
        assert_eq!(Some(letter), convert_rank_numeric_to_alpha(n));
        assert_eq!(Some(n), convert_rank_alpha_to_numeric(letter));
        assert_eq!(
            Some(n),
            convert_rank_alpha_to_numeric(letter.to_ascii_lowercase())
        );
    }
    assert_eq!(None, convert_rank_numeric_to_alpha(8));
    assert_eq!(None, convert_rank_numeric_to_alpha(255));
    assert_eq!(None, convert_rank_alpha_to_numeric('I'));
    assert_eq!(None, convert_rank_alpha_to_numeric('i'));
    assert_eq!(None, convert_rank_alpha_to_numeric('1'));
    assert_eq!(None, convert_rank_alpha_to_numeric('@'));
}

#[test]
fn decimal_numbers() {
    for n in [0u64, 7, 9, 10, 42, 100, 256, 9_999, 18_446_744_073_709_551_615] {
        let mut text = String::from("n=");
        push_decimal(&mut text, n);
        assert_eq!(format!("n={}", n), text);
    }
}

#[test]
fn names_of_kinds_colours_and_pieces() {
    assert_eq!("Pawn", PieceType::Pawn.to_string());
    assert_eq!("Knight", PieceType::Knight.to_string());
    assert_eq!("Bishop", PieceType::Bishop.to_string());
    assert_eq!("Rook", PieceType::Rook.to_string());
    assert_eq!("Queen", PieceType::Queen.to_string());
    assert_eq!("King", PieceType::King.to_string());
    assert_eq!("White", PieceColor::White.to_string());
    assert_eq!("Black", PieceColor::Black.to_string());
    assert_eq!(
        "Black Queen",
        Piece::new(PieceType::Queen, PieceColor::Black).to_string()
    );
}

#[test]
fn move_in_short_notation() {
    let knight = Piece::new(PieceType::Knight, PieceColor::White);
    let mut m = Move {
        piece: knight,
        start_pos: PieceLoc::new(0, 6),
        end_pos: PieceLoc::new(2, 5),
        move_type: MoveType::Normal,
        capturing: false,
    };
    assert_eq!("NF3", m.get_move_display());
    m.piece = Piece::new(PieceType::Pawn, PieceColor::White);
    m.end_pos = PieceLoc::new(3, 4);
    assert_eq!(" E4", m.get_move_display());
    // A rank beyond the board is still written out in full.
    m.end_pos = PieceLoc::new(254, 7);
    assert_eq!(" H255", m.get_move_display());
}

#[test]
fn move_list_text() {
    let board = Board::new();
    assert_eq!("Moves:", get_movelist_display(&board));
    let board = play(board, (1, 4), (3, 4));
    assert_eq!("Moves:\n1.  E4 ", get_movelist_display(&board));
    let board = play(board, (6, 4), (4, 4));
    let board = play(board, (0, 6), (2, 5));
    assert_eq!("Moves:\n1.  E4  E5 \n2. NF3 ", get_movelist_display(&board));
}

#[test]
fn graveyard_text() {
    let mut board = Board::new();
    assert_eq!(
        "Graveyard:\n\tWhite pieces:\n\t\tNo pieces have been captured yet.\n\tBlack pieces:\n\t\tNo pieces have been captured yet.",
        get_graveyard_display(&board)
    );
    board.graveyard.record(PieceColor::Black, PieceType::Queen);
    board.graveyard.record(PieceColor::Black, PieceType::Pawn);
    board.graveyard.record(PieceColor::Black, PieceType::Pawn);
    assert_eq!(
        "Graveyard:\n\tWhite pieces:\n\t\tNo pieces have been captured yet.\n\tBlack pieces:\n\t\t2x Pawn\n\t\t1x Queen",
        get_graveyard_display(&board)
    );
    for _ in 0..12 {
        board.graveyard.record(PieceColor::White, PieceType::King);
    }
    assert_eq!(
        "Graveyard:\n\tWhite pieces:\n\t\t12x King\n\tBlack pieces:\n\t\t2x Pawn\n\t\t1x Queen",
        get_graveyard_display(&board)
    );
}

#[test]
fn board_text() {
    let board = play(Board::new(), (1, 4), (3, 4));
    let expected = "\
R N B Q K B N R \n\
P P P P P P P P \n\
. . . . . . . . \n\
. . . . . . . . \n\
. . . . P . . . \n\
. . . . . . . . \n\
P P P P . P P P \n\
R N B Q K B N R \n\
\n\n\
Moves:\n1.  E4 \
\n\n\
Graveyard:\n\tWhite pieces:\n\t\tNo pieces have been captured yet.\n\tBlack pieces:\n\t\tNo pieces have been captured yet.";
    assert_eq!(expected, board.to_string());
}

#[test]
fn rejection_messages() {
    let messages = [
        (MoveError::WrongColorPiece, "It is not your turn to move."),
        (
            MoveError::RankDifferenceGreater,
            "Piece attempted to move too many ranks at once.",
        ),
        (
            MoveError::FileDifferenceGreater,
            "Piece attempted to move too many files at once.",
        ),
        (
            MoveError::MoveOutOfBounds,
            "Piece attempted to move out of bounds.",
        ),
        (
            MoveError::MoveNotStraightLine,
            "Piece attempted to move to an invalid square.",
        ),
        (
            MoveError::NoPositionChange,
            "A piece cannot be moved to the square it already occupies.",
        ),
        (
            MoveError::OccupiedBySameColor,
            "A piece cannot be moved to a square that is occupied by a piece of the same color.",
        ),
        (MoveError::PawnMustMoveForward, "Pawns can only move forward."),
        (
            MoveError::PawnMustCaptureDiagonal,
            "Pawns cannot capture pieces directly in front of them.",
        ),
        (
            MoveError::PawnEnPassantNotValid,
            "Conditions not met to perform en passant",
        ),
        (
            MoveError::KnightInvalidMove,
            "Knights may only move two squares in one cardinal direction, and one square in a perpendicular direction.",
        ),
        (
            MoveError::RookMustMoveCardinal,
            "Rooks may only move horizontally or vertically.",
        ),
        (
            MoveError::BishopMustMoveDiagonal,
            "Bishops may only move diagonally.",
        ),
        (
            MoveError::NoRookToCastleWith,
            "There is no valid rook to castle with on that side.",
        ),
        (
            MoveError::CannotCastleWithMovedRook,
            "You cannot castle with a rook that has previously moved.",
        ),
        (
            MoveError::CannotCastleWithMovedKing,
            "You cannot castle with a king that has previously moved.",
        ),
    ];
    for (error, message) in messages {
        assert_eq!(format!("Invalid Move: {}", message), error.to_string());
    }
}

#[test]
fn squares_from_notation() {
    assert_eq!(Some(PieceLoc::new(0, 0)), PieceLoc::from_notation("A1"));
    assert_eq!(Some(PieceLoc::new(1, 4)), PieceLoc::from_notation("E2"));
    assert_eq!(Some(PieceLoc::new(1, 4)), PieceLoc::from_notation("e2"));
    assert_eq!(Some(PieceLoc::new(7, 7)), PieceLoc::from_notation("h8"));
    assert_eq!(None, PieceLoc::from_notation(""));
    assert_eq!(None, PieceLoc::from_notation("E"));
    assert_eq!(None, PieceLoc::from_notation("E22"));
    assert_eq!(None, PieceLoc::from_notation("E9"));
    assert_eq!(None, PieceLoc::from_notation("E0"));
    assert_eq!(None, PieceLoc::from_notation("I1"));
    assert_eq!(None, PieceLoc::from_notation("2E"));
    assert_eq!(None, PieceLoc::from_notation("é"));
    assert_eq!(None, PieceLoc::from_notation("é1"));
}
