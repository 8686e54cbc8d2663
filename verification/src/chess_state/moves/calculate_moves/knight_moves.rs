use vstd::prelude::*;

use crate::bitscan::bits_of;
use crate::bitscan::lemma_bits_of_elems;
use crate::bitscan::lemma_bits_of_zero;
use crate::bitscan::next_single_bit;
use crate::chess_state::board_bitmask::BoardBitmasks;
use crate::chess_state::board_bitmask::aggregates_consistent;
use crate::chess_state::chess_pieces::PieceEnum;
use crate::chess_state::coordinate_point::CoordinatePosition;
use crate::chess_state::coordinate_point::lemma_mask_square_round_trip;
use crate::chess_state::coordinate_point::square_of;
use crate::chess_state::moves::chess_move::ChessDirection;
use crate::chess_state::moves::chess_move::ChessShiftMove;
use crate::chess_state::moves::chess_move::lemma_shift_origin;
use crate::chess_state::moves::chess_move::opposite_direction;
use crate::chess_state::moves::chess_move::shift_move_spec;
use crate::chess_state::moves::shared::CheckType;
use crate::chess_state::moves::shared::Move;
use crate::chess_state::moves::shared::MoveError;
use crate::chess_state::moves::shared::lemma_capture_resolves;
use crate::chess_state::moves::shared::piece_at_of;
use crate::chess_state::moves::standard_move::StandardMove;
use crate::shared::is_single_bit;

verus! {

/// Whether `d` is one of the eight knight directions.
pub open spec fn is_knight_direction(d: ChessDirection) -> bool {
    match d {
        ChessDirection::KnightOne | ChessDirection::KnightTwo | ChessDirection::KnightFour
            | ChessDirection::KnightFive | ChessDirection::KnightSeven
            | ChessDirection::KnightEight | ChessDirection::KnightTen
            | ChessDirection::KnightEleven => true,
        _ => false,
    }
}

/// The squares the knights in `knights` reach one L-step in `d`, never onto
/// the squares of `occupied`.
pub open spec fn knight_dests(knights: u64, occupied: u64, d: ChessDirection) -> u64 {
    shift_move_spec(knights, d) & !occupied
}

/// The knight move landing on `b` after an L-step in `d`: the origin is one
/// opposite step back, and a destination on `captures` takes the piece that
/// `board` holds there.
pub open spec fn knight_move_spec(
    board: BoardBitmasks,
    captures: u64,
    d: ChessDirection,
    piece_type: PieceEnum,
    b: u64,
) -> Move {
    Move::StandardMove(
        StandardMove {
            start_position: square_of(shift_move_spec(b, opposite_direction(d))),
            end_position: square_of(b),
            piece: piece_type,
            en_passant_target: None,
            promotion: None,
            takes: if b & captures != 0 {
                Some((square_of(b), piece_at_of(board, b)))
            } else {
                Option::<(CoordinatePosition, PieceEnum)>::None
            },
            check: CheckType::NoCheck,
        },
    )
}

/// The knight moves of one side, as the concatenation of the eight knight
/// directions in clock order, destinations ascending within each direction.
pub open spec fn knight_moves_spec(board: BoardBitmasks, white: bool) -> Seq<Move> {
    let knights = if white {
        board.white_knights.mask
    } else {
        board.black_knights.mask
    };
    let captures = if white {
        board.black_pieces.mask
    } else {
        board.white_pieces.mask
    };
    let occupied = if white {
        board.white_pieces.mask
    } else {
        board.black_pieces.mask
    };
    let piece_type = if white {
        PieceEnum::WhiteKnight
    } else {
        PieceEnum::BlackKnight
    };
    knight_direction_moves_spec(board, knights, captures, occupied, ChessDirection::KnightOne, piece_type)
        + knight_direction_moves_spec(board, knights, captures, occupied, ChessDirection::KnightTwo, piece_type)
        + knight_direction_moves_spec(board, knights, captures, occupied, ChessDirection::KnightFour, piece_type)
        + knight_direction_moves_spec(board, knights, captures, occupied, ChessDirection::KnightFive, piece_type)
        + knight_direction_moves_spec(board, knights, captures, occupied, ChessDirection::KnightSeven, piece_type)
        + knight_direction_moves_spec(board, knights, captures, occupied, ChessDirection::KnightEight, piece_type)
        + knight_direction_moves_spec(board, knights, captures, occupied, ChessDirection::KnightTen, piece_type)
        + knight_direction_moves_spec(board, knights, captures, occupied, ChessDirection::KnightEleven, piece_type)
}

/// The knight moves of one direction, destinations ascending.
pub open spec fn knight_direction_moves_spec(
    board: BoardBitmasks,
    knights: u64,
    captures: u64,
    occupied: u64,
    d: ChessDirection,
    piece_type: PieceEnum,
) -> Seq<Move> {
    bits_of(knight_dests(knights, occupied, d)).map_values(
        |b: u64| knight_move_spec(board, captures, d, piece_type, b),
    )
}

/// Emits the moves of the knights in `knights` one L-step in `direction`:
/// destinations on squares of `occupied` (the mover's own pieces) are
/// dropped, and destinations on `captures` (the opponent's pieces) carry the
/// captured piece. Refuses directions that are not knight steps.
pub fn helper_calculate_knight_move(
    game_board: &BoardBitmasks,
    knights: u64,
    captures: u64,
    occupied: u64,
    direction: ChessDirection,
    piece_type: PieceEnum,
) -> (r: Result<Vec<Move>, MoveError>)
    requires
        aggregates_consistent(*game_board),
        captures == game_board.black_pieces.mask || captures == game_board.white_pieces.mask,
    ensures
        !is_knight_direction(direction) ==> r matches Err(MoveError::InvalidDirection(_, _, _)),
        is_knight_direction(direction) ==> (r matches Ok(out) && out@
            == knight_direction_moves_spec(
            *game_board,
            knights,
            captures,
            occupied,
            direction,
            piece_type,
        )),
{
    let reverse_direction = match direction {
        ChessDirection::KnightOne => ChessDirection::KnightSeven,
        ChessDirection::KnightTwo => ChessDirection::KnightEight,
        ChessDirection::KnightFour => ChessDirection::KnightTen,
        ChessDirection::KnightFive => ChessDirection::KnightEleven,
        ChessDirection::KnightSeven => ChessDirection::KnightOne,
        ChessDirection::KnightEight => ChessDirection::KnightTwo,
        ChessDirection::KnightTen => ChessDirection::KnightFour,
        ChessDirection::KnightEleven => ChessDirection::KnightFive,
        _ => {
            return Err(
                MoveError::InvalidDirection(
                    "helper_calculate_knight_move".to_owned(),
                    "a knight direction".to_owned(),
                    "a cardinal or diagonal direction".to_owned(),
                ),
            );
        },
    };
    proof {
        assert(reverse_direction == opposite_direction(direction));
    }
    let mut output: Vec<Move> = Vec::with_capacity(8);
    let mut valid_moves = knights.shift_move(direction) & !occupied;
    let ghost dests = valid_moves;
    proof {
        assert(output@ =~= bits_of(dests).take(0).map_values(
            |b: u64| knight_move_spec(*game_board, captures, direction, piece_type, b),
        ));
    }
    while valid_moves != 0
        invariant
            aggregates_consistent(*game_board),
            captures == game_board.black_pieces.mask || captures == game_board.white_pieces.mask,
            is_knight_direction(direction),
            reverse_direction == opposite_direction(direction),
            dests == knight_dests(knights, occupied, direction),
            bits_of(dests) == bits_of(dests).take(output@.len() as int) + bits_of(valid_moves),
            output@ == bits_of(dests).take(output@.len() as int).map_values(
                |b: u64| knight_move_spec(*game_board, captures, direction, piece_type, b),
            ),
        decreases valid_moves,
    {
        let ghost n = output@.len() as int;
        let next_move = next_single_bit(valid_moves);
        let starting_position = next_move.shift_move(reverse_direction);
        proof {
            lemma_bits_of_elems(dests);
            assert(bits_of(dests)[n] == next_move);
            assert(is_single_bit(next_move) && next_move & dests == next_move);
            crate::shared::lemma_absorb(
                next_move,
                shift_move_spec(knights, direction),
                !occupied,
            );
            lemma_shift_origin(next_move, knights, direction);
            lemma_mask_square_round_trip(next_move);
            lemma_mask_square_round_trip(starting_position);
        }
        let coord_next_move = match CoordinatePosition::from_bitmask(next_move) {
            Ok(c) => c,
            Err(e) => {
                proof {
                    assert(false);
                }
                return Err(MoveError::CoordinateError(e));
            },
        };
        let coord_start = match CoordinatePosition::from_bitmask(starting_position) {
            Ok(c) => c,
            Err(e) => {
                proof {
                    assert(false);
                }
                return Err(MoveError::CoordinateError(e));
            },
        };
        let takes = if next_move & captures != 0 {
            proof {
                crate::shared::lemma_single_bit_facts(next_move, captures);
                lemma_capture_resolves(*game_board, next_move);
            }
            Some((coord_next_move, game_board.get_piece_type_for_capture(coord_next_move)?))
        } else {
            None
        };
        output.push(
            Move::StandardMove(
                StandardMove {
                    start_position: coord_start,
                    end_position: coord_next_move,
                    piece: piece_type,
                    en_passant_target: None,
                    promotion: None,
                    takes,
                    check: CheckType::NoCheck,
                },
            ),
        );
        valid_moves = valid_moves & !next_move;
        proof {
            assert(bits_of(dests).take(n + 1) =~= bits_of(dests).take(n) + seq![next_move]);
            assert(output@ =~= bits_of(dests).take(n + 1).map_values(
                |b: u64| knight_move_spec(*game_board, captures, direction, piece_type, b),
            ));
            assert(bits_of(dests) =~= bits_of(dests).take(n + 1) + bits_of(valid_moves));
        }
    }
    proof {
        lemma_bits_of_zero();
        assert(output@ =~= bits_of(dests).map_values(
            |b: u64| knight_move_spec(*game_board, captures, direction, piece_type, b),
        ));
    }
    Ok(output)
}

impl BoardBitmasks {
    /// Emits every knight move of one side: for each of the eight knight
    /// directions in clock order, the destinations off the mover's own
    /// pieces, with captures resolved against the opposing side.
    pub fn calculate_knight_moves(&self, white: bool) -> (r: Result<Vec<Move>, MoveError>)
        requires
            aggregates_consistent(*self),
        ensures
            r matches Ok(out) && out@ == knight_moves_spec(*self, white),
    {
        // choose the correct knights
        let local_knights = if white {
            self.white_knights.mask
        } else {
            self.black_knights.mask
        };
        // choose the correct captures bitmask
        let local_captures = if white {
            self.black_pieces.mask
        } else {
            self.white_pieces.mask
        };
        // choose the correct occupied bitmasks
        let local_occupied = if white {
            self.white_pieces.mask
        } else {
            self.black_pieces.mask
        };
        let piece_type = if white {
            PieceEnum::WhiteKnight
        } else {
            PieceEnum::BlackKnight
        };
        let mut output: Vec<Move> = Vec::new();
        let mut one = helper_calculate_knight_move(
            self,
            local_knights,
            local_captures,
            local_occupied,
            ChessDirection::KnightOne,
            piece_type,
        )?;
        output.append(&mut one);
        let mut two = helper_calculate_knight_move(
            self,
            local_knights,
            local_captures,
            local_occupied,
            ChessDirection::KnightTwo,
            piece_type,
        )?;
        output.append(&mut two);
        let mut four = helper_calculate_knight_move(
            self,
            local_knights,
            local_captures,
            local_occupied,
            ChessDirection::KnightFour,
            piece_type,
        )?;
        output.append(&mut four);
        let mut five = helper_calculate_knight_move(
            self,
            local_knights,
            local_captures,
            local_occupied,
            ChessDirection::KnightFive,
            piece_type,
        )?;
        output.append(&mut five);
        let mut seven = helper_calculate_knight_move(
            self,
            local_knights,
            local_captures,
            local_occupied,
            ChessDirection::KnightSeven,
            piece_type,
        )?;
        output.append(&mut seven);
        let mut eight = helper_calculate_knight_move(
            self,
            local_knights,
            local_captures,
            local_occupied,
            ChessDirection::KnightEight,
            piece_type,
        )?;
        output.append(&mut eight);
        let mut ten = helper_calculate_knight_move(
            self,
            local_knights,
            local_captures,
            local_occupied,
            ChessDirection::KnightTen,
            piece_type,
        )?;
        output.append(&mut ten);
        let mut eleven = helper_calculate_knight_move(
            self,
            local_knights,
            local_captures,
            local_occupied,
            ChessDirection::KnightEleven,
            piece_type,
        )?;
        output.append(&mut eleven);
        proof {
            assert(output@ =~= knight_moves_spec(*self, white));
        }
        Ok(output)
    }
}

} // verus!
