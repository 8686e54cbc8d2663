use vstd::prelude::*;

use crate::chess_state::board_bitmask::BoardBitmasks;
use crate::chess_state::chess_pieces::PieceEnum;
use crate::chess_state::coordinate_point::CoordinatePosition;
use crate::chess_state::coordinates::CoordinateError;
use crate::chess_state::moves::chess_move::ChessDirection;
use crate::chess_state::moves::chess_move::FILE_A;
use crate::chess_state::moves::chess_move::FILE_B;
use crate::chess_state::moves::chess_move::FILE_G;
use crate::chess_state::moves::chess_move::FILE_H;
use crate::chess_state::moves::chess_move::RANK_EIGHT;
use crate::chess_state::moves::chess_move::RANK_ONE;
use crate::chess_state::moves::chess_move::RANK_SEVEN;
use crate::chess_state::moves::chess_move::RANK_TWO;
use crate::chess_state::moves::chess_move::valid_space_spec;
use crate::chess_state::moves::standard_move::StandardMove;

verus! {

/// The two castling moves.
#[derive(Debug, PartialEq, Eq)]
pub enum CastleType {
    ShortCastle,
    LongCastle,
}

/// Whether a move leaves the opponent unmolested, in check, or checkmated.
#[derive(Debug, PartialEq, Eq, Clone, Copy, Structural)]
pub enum CheckType {
    NoCheck,
    Check,
    Checkmate,
}

/// A move of either shape: an ordinary piece move or a castle.
#[derive(Debug, PartialEq, Eq)]
pub enum Move {
    StandardMove(StandardMove),
    Castle(CastleType),
}

/// The ways move generation can be refused.
#[derive(Debug)]
pub enum MoveError {
    PawnOnOneOrEight,
    CoordinateError(CoordinateError),
    CapturePieceNotFound(CoordinatePosition),
    InvalidPieceType(String, String, String),
    InvalidDirection(String, String, String),
}

/// The per-piece mask of `board` that tracks the piece class `piece_type`.
pub open spec fn piece_mask_for(board: BoardBitmasks, piece_type: PieceEnum) -> u64 {
    match piece_type {
        PieceEnum::WhitePawn => board.white_pawns.mask,
        PieceEnum::WhiteKnight => board.white_knights.mask,
        PieceEnum::WhiteBishop => board.white_bishops.mask,
        PieceEnum::WhiteRook => board.white_rooks.mask,
        PieceEnum::WhiteQueen => board.white_queens.mask,
        PieceEnum::WhiteKing => board.white_kings.mask,
        PieceEnum::BlackPawn => board.black_pawns.mask,
        PieceEnum::BlackKnight => board.black_knights.mask,
        PieceEnum::BlackBishop => board.black_bishops.mask,
        PieceEnum::BlackRook => board.black_rooks.mask,
        PieceEnum::BlackQueen => board.black_queens.mask,
        PieceEnum::BlackKing => board.black_kings.mask,
    }
}

/// The piece class standing on the squares of `sq` (for a single-bit `sq`):
/// the white side is searched first, each side in a fixed piece order. `None`
/// when no per-piece mask meets `sq`.
pub open spec fn piece_at_spec(board: BoardBitmasks, sq: u64) -> Option<PieceEnum> {
    if sq & board.all_pieces.mask == 0 {
        None
    } else if sq & board.white_pieces.mask != 0 {
        if sq & board.white_pawns.mask != 0 {
            Some(PieceEnum::WhitePawn)
        } else if sq & board.white_knights.mask != 0 {
            Some(PieceEnum::WhiteKnight)
        } else if sq & board.white_bishops.mask != 0 {
            Some(PieceEnum::WhiteBishop)
        } else if sq & board.white_rooks.mask != 0 {
            Some(PieceEnum::WhiteRook)
        } else if sq & board.white_queens.mask != 0 {
            Some(PieceEnum::WhiteQueen)
        } else if sq & board.white_kings.mask != 0 {
            Some(PieceEnum::WhiteKing)
        } else {
            None
        }
    } else {
        if sq & board.black_pawns.mask != 0 {
            Some(PieceEnum::BlackPawn)
        } else if sq & board.black_knights.mask != 0 {
            Some(PieceEnum::BlackKnight)
        } else if sq & board.black_bishops.mask != 0 {
            Some(PieceEnum::BlackBishop)
        } else if sq & board.black_rooks.mask != 0 {
            Some(PieceEnum::BlackRook)
        } else if sq & board.black_queens.mask != 0 {
            Some(PieceEnum::BlackQueen)
        } else if sq & board.black_kings.mask != 0 {
            Some(PieceEnum::BlackKing)
        } else {
            None
        }
    }
}

/// The piece captured on `sq`, where the caller knows one is there: the
/// `piece_at_spec` answer, with an arbitrary default on the dead branch.
pub open spec fn piece_at_of(board: BoardBitmasks, sq: u64) -> PieceEnum {
    match piece_at_spec(board, sq) {
        Some(p) => p,
        None => PieceEnum::WhitePawn,
    }
}


/// On a board whose aggregates are consistent, a single-bit square lying in
/// either side's aggregate mask always resolves to a piece.
pub proof fn lemma_capture_resolves(board: BoardBitmasks, b: u64)
    requires
        crate::chess_state::board_bitmask::aggregates_consistent(board),
        crate::shared::is_single_bit(b),
        b & board.black_pieces.mask == b || b & board.white_pieces.mask == b,
    ensures
        piece_at_spec(board, b) is Some,
{
    crate::shared::lemma_single_bit_shape(b);
    let wp = board.white_pawns.mask;
    let wn = board.white_knights.mask;
    let wb = board.white_bishops.mask;
    let wr = board.white_rooks.mask;
    let wq = board.white_queens.mask;
    let wk = board.white_kings.mask;
    let bp = board.black_pawns.mask;
    let bn = board.black_knights.mask;
    let bb = board.black_bishops.mask;
    let br = board.black_rooks.mask;
    let bq = board.black_queens.mask;
    let bk = board.black_kings.mask;
    let w = board.white_pieces.mask;
    let bl = board.black_pieces.mask;
    let all = board.all_pieces.mask;
    assert(((b != 0 && b & bl == b && bl == bp | bn | bb | br | bq | bk && all == w | bl && w & bl
        == 0) ==> (b & all != 0 && b & w == 0 && (b & bp != 0 || b & bn != 0 || b & bb != 0 || b
        & br != 0 || b & bq != 0 || b & bk != 0))) && ((b != 0 && b & w == b && w == wp | wn | wb
        | wr | wq | wk && all == w | bl) ==> (b & all != 0 && b & w != 0 && (b & wp != 0 || b & wn
        != 0 || b & wb != 0 || b & wr != 0 || b & wq != 0 || b & wk != 0)))) by (bit_vector);
}

impl BoardBitmasks {
    /// Resolves which piece class stands on `capture_position`, to fill a
    /// move's `takes` field; fails with `CapturePieceNotFound` when no mask of
    /// this board holds that square.
    pub fn get_piece_type_for_capture(&self, capture_position: CoordinatePosition) -> (r: Result<
        PieceEnum,
        MoveError,
    >)
        ensures
            match piece_at_spec(*self, capture_position.as_mask()) {
                Some(p) => r == Ok::<PieceEnum, MoveError>(p),
                None => r == Err::<PieceEnum, MoveError>(
                    MoveError::CapturePieceNotFound(capture_position),
                ),
            },
    {
        if (capture_position.to_bitmask() & self.all_pieces.to_u64()) == 0 {
            Err(MoveError::CapturePieceNotFound(capture_position))
        } else {
            if capture_position.to_bitmask() & self.white_pieces.to_u64() > 0 {
                // tis a white piece
                if capture_position.to_bitmask() & self.white_pawns.to_u64() > 0 {
                    Ok(PieceEnum::WhitePawn)
                } else if capture_position.to_bitmask() & self.white_knights.to_u64() > 0 {
                    Ok(PieceEnum::WhiteKnight)
                } else if capture_position.to_bitmask() & self.white_bishops.to_u64() > 0 {
                    Ok(PieceEnum::WhiteBishop)
                } else if capture_position.to_bitmask() & self.white_rooks.to_u64() > 0 {
                    Ok(PieceEnum::WhiteRook)
                } else if capture_position.to_bitmask() & self.white_queens.to_u64() > 0 {
                    Ok(PieceEnum::WhiteQueen)
                } else if capture_position.to_bitmask() & self.white_kings.to_u64() > 0 {
                    Ok(PieceEnum::WhiteKing)
                } else {
                    Err(MoveError::CapturePieceNotFound(capture_position))
                }
            } else {
                // must be a black piece
                if capture_position.to_bitmask() & self.black_pawns.to_u64() > 0 {
                    Ok(PieceEnum::BlackPawn)
                } else if capture_position.to_bitmask() & self.black_knights.to_u64() > 0 {
                    Ok(PieceEnum::BlackKnight)
                } else if capture_position.to_bitmask() & self.black_bishops.to_u64() > 0 {
                    Ok(PieceEnum::BlackBishop)
                } else if capture_position.to_bitmask() & self.black_rooks.to_u64() > 0 {
                    Ok(PieceEnum::BlackRook)
                } else if capture_position.to_bitmask() & self.black_queens.to_u64() > 0 {
                    Ok(PieceEnum::BlackQueen)
                } else if capture_position.to_bitmask() & self.black_kings.to_u64() > 0 {
                    Ok(PieceEnum::BlackKing)
                } else {
                    Err(MoveError::CapturePieceNotFound(capture_position))
                }
            }
        }
    }

    /// The per-piece mask of this board that tracks `piece_type`.
    pub fn piece_enum_to_bitmask(&self, piece_type: PieceEnum) -> (r: u64)
        ensures
            r == piece_mask_for(*self, piece_type),
    {
        match piece_type {
            PieceEnum::WhitePawn => self.white_pawns.mask,
            PieceEnum::WhiteKnight => self.white_knights.mask,
            PieceEnum::WhiteBishop => self.white_bishops.mask,
            PieceEnum::WhiteRook => self.white_rooks.mask,
            PieceEnum::WhiteQueen => self.white_queens.mask,
            PieceEnum::WhiteKing => self.white_kings.mask,
            PieceEnum::BlackPawn => self.black_pawns.mask,
            PieceEnum::BlackKnight => self.black_knights.mask,
            PieceEnum::BlackBishop => self.black_bishops.mask,
            PieceEnum::BlackRook => self.black_rooks.mask,
            PieceEnum::BlackQueen => self.black_queens.mask,
            PieceEnum::BlackKing => self.black_kings.mask,
        }
    }
}

/// The mask of squares from which a step in `move_type` stays on the board:
/// the complement of the files and ranks that the step would wrap over.
pub fn get_valid_space(move_type: ChessDirection) -> (r: u64)
    ensures
        r == valid_space_spec(move_type),
{
    match move_type {
        ChessDirection::Up => !RANK_EIGHT,
        ChessDirection::UpRight => !(RANK_EIGHT | FILE_H),
        ChessDirection::Right => !FILE_H,
        ChessDirection::DownRight => !(RANK_ONE | FILE_H),
        ChessDirection::Down => !RANK_ONE,
        ChessDirection::DownLeft => !(RANK_ONE | FILE_A),
        ChessDirection::Left => !FILE_A,
        ChessDirection::UpLeft => !(FILE_A | RANK_EIGHT),
        // These ones are more complicated
        // up, up, right
        ChessDirection::KnightOne => !(RANK_SEVEN | RANK_EIGHT | FILE_H),
        // up, right, right
        ChessDirection::KnightTwo => !(RANK_EIGHT | FILE_G | FILE_H),
        // down, right, right
        ChessDirection::KnightFour => !(RANK_ONE | FILE_G | FILE_H),
        // down, down, right
        ChessDirection::KnightFive => !(RANK_ONE | RANK_TWO | FILE_H),
        // down, down, left
        ChessDirection::KnightSeven => !(RANK_ONE | RANK_TWO | FILE_A),
        // down, left, left
        ChessDirection::KnightEight => !(RANK_ONE | FILE_A | FILE_B),
        // up, left, left
        ChessDirection::KnightTen => !(RANK_EIGHT | FILE_A | FILE_B),
        // up, up, left
        ChessDirection::KnightEleven => !(RANK_SEVEN | RANK_EIGHT | FILE_A),
    }
}

} // verus!
