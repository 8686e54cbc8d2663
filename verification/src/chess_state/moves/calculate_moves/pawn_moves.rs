use vstd::prelude::*;

use crate::bitscan::bits_of;
use crate::bitscan::lemma_bits_of_elems;
use crate::bitscan::lemma_bits_of_zero;
use crate::bitscan::next_single_bit;
use crate::chess_state::board_bitmask::BoardBitmasks;
use crate::chess_state::board_bitmask::aggregates_consistent;
use crate::chess_state::chess_pieces::PieceEnum;
use crate::chess_state::coordinate_point::CoordinatePosition;
use crate::chess_state::coordinate_point::lemma_mask_square_round_trip;
use crate::chess_state::coordinate_point::lemma_square_mask_round_trip;
use crate::chess_state::coordinate_point::square_from_mask;
use crate::chess_state::coordinate_point::square_of;
use crate::chess_state::moves::chess_move::ChessDirection;
use crate::chess_state::moves::chess_move::ChessShiftMove;
use crate::chess_state::moves::chess_move::FILE_A;
use crate::chess_state::moves::chess_move::FILE_H;
use crate::chess_state::moves::chess_move::RANK_EIGHT;
use crate::chess_state::moves::chess_move::RANK_FIVE;
use crate::chess_state::moves::chess_move::RANK_ONE;
use crate::chess_state::moves::chess_move::RANK_SEVEN;
use crate::chess_state::moves::chess_move::RANK_TWO;
use crate::chess_state::moves::chess_move::shift_down;
use crate::chess_state::moves::chess_move::shift_down_left;
use crate::chess_state::moves::chess_move::shift_down_right;
use crate::chess_state::moves::chess_move::shift_up;
use crate::chess_state::moves::chess_move::shift_up_left;
use crate::chess_state::moves::chess_move::shift_up_right;
use crate::chess_state::moves::shared::CheckType;
use crate::chess_state::moves::shared::Move;
use crate::chess_state::moves::shared::MoveError;
use crate::chess_state::coordinates::YCoordinate;
use crate::chess_state::coordinates::lemma_single_bit_unique_components;
use crate::chess_state::coordinates::y_mask;
use crate::chess_state::moves::shared::lemma_capture_resolves;
use crate::chess_state::moves::shared::piece_at_of;
use crate::chess_state::moves::shared::piece_at_spec;
use crate::chess_state::moves::standard_move::StandardMove;
use crate::shared::is_single_bit;

verus! {

pub const ROWS_TWO_TO_SIX: u64 = !(RANK_ONE | RANK_SEVEN | RANK_EIGHT);

pub const VALID_SQUARES_NOT_IN_COLUMN_A: u64 = !(RANK_ONE | RANK_SEVEN | RANK_EIGHT | FILE_A);

pub const VALID_SQUARES_NOT_IN_COLUMN_H: u64 = !(RANK_ONE | RANK_SEVEN | RANK_EIGHT | FILE_H);

pub const ROW_SEVEN_NOT_COLUMN_A: u64 = RANK_SEVEN & !FILE_A;

pub const ROW_SEVEN_NOT_COLUMN_H: u64 = RANK_SEVEN & !FILE_H;

/// The squares that white pawns (outside the promotion rank) can step onto.
pub open spec fn single_step_dests(pawns: u64, occupied: u64) -> u64 {
    shift_up(pawns & ROWS_TWO_TO_SIX) & !occupied
}

/// The squares that white pawns on their starting rank can double-step onto:
/// both the crossed square and the destination must be free.
pub open spec fn double_step_dests(pawns: u64, occupied: u64) -> u64 {
    shift_up(shift_up(pawns & RANK_TWO) & !occupied) & !occupied
}

/// The black-occupied squares that white pawns can capture up-and-left.
pub open spec fn capture_left_dests(pawns: u64, black_pieces: u64) -> u64 {
    shift_up_left(pawns & VALID_SQUARES_NOT_IN_COLUMN_A) & black_pieces
}

/// The black-occupied squares that white pawns can capture up-and-right.
pub open spec fn capture_right_dests(pawns: u64, black_pieces: u64) -> u64 {
    shift_up_right(pawns & VALID_SQUARES_NOT_IN_COLUMN_H) & black_pieces
}

/// The white pawns that can capture en passant onto `target`: the two squares
/// diagonally below the target, on the rank a capturing pawn stands on. No
/// pawn qualifies unless the black pawn being captured stands just below the
/// target.
pub open spec fn en_passant_origins(pawns: u64, black_pawns: u64, target: u64) -> u64 {
    if shift_down(target) & black_pawns == 0 {
        0u64
    } else {
        pawns & ((shift_down_left(target) | shift_down_right(target)) & RANK_FIVE)
    }
}

/// The free squares that white pawns on the seventh rank can promote onto.
pub open spec fn promotion_push_dests(pawns: u64, occupied: u64) -> u64 {
    shift_up(pawns & RANK_SEVEN) & !occupied
}

/// The black-occupied squares reachable by a promoting capture up-and-left.
pub open spec fn promotion_capture_left_dests(pawns: u64, black_pieces: u64) -> u64 {
    shift_up_left((pawns & RANK_SEVEN) & ROW_SEVEN_NOT_COLUMN_A) & black_pieces
}

/// The black-occupied squares reachable by a promoting capture up-and-right.
pub open spec fn promotion_capture_right_dests(pawns: u64, black_pieces: u64) -> u64 {
    shift_up_right((pawns & RANK_SEVEN) & ROW_SEVEN_NOT_COLUMN_H) & black_pieces
}

/// The single-step move landing on the square `b`.
pub open spec fn simple_move_spec(b: u64) -> Move {
    Move::StandardMove(
        StandardMove {
            start_position: square_of(shift_down(b)),
            end_position: square_of(b),
            piece: PieceEnum::WhitePawn,
            en_passant_target: None,
            promotion: None,
            takes: None,
            check: CheckType::NoCheck,
        },
    )
}

/// The double-step move landing on `b`, carrying the square it leapt over as
/// the en passant target.
pub open spec fn double_move_spec(b: u64) -> Move {
    Move::StandardMove(
        StandardMove {
            start_position: square_of(shift_down(shift_down(b))),
            end_position: square_of(b),
            piece: PieceEnum::WhitePawn,
            en_passant_target: Some(square_of(shift_down(b))),
            promotion: None,
            takes: None,
            check: CheckType::NoCheck,
        },
    )
}

/// The up-and-left capture landing on `b`, taking whatever `board` holds
/// there.
pub open spec fn capture_left_move_spec(board: BoardBitmasks, b: u64) -> Move {
    Move::StandardMove(
        StandardMove {
            start_position: square_of(shift_down_right(b)),
            end_position: square_of(b),
            piece: PieceEnum::WhitePawn,
            en_passant_target: None,
            promotion: None,
            takes: Some((square_of(b), piece_at_of(board, b))),
            check: CheckType::NoCheck,
        },
    )
}

/// The up-and-right capture landing on `b`.
pub open spec fn capture_right_move_spec(board: BoardBitmasks, b: u64) -> Move {
    Move::StandardMove(
        StandardMove {
            start_position: square_of(shift_down_left(b)),
            end_position: square_of(b),
            piece: PieceEnum::WhitePawn,
            en_passant_target: None,
            promotion: None,
            takes: Some((square_of(b), piece_at_of(board, b))),
            check: CheckType::NoCheck,
        },
    )
}

/// The en passant capture from `origin` onto `target`: the captured black
/// pawn stands one square below the target.
pub open spec fn en_passant_move_spec(target: u64, origin: u64) -> Move {
    Move::StandardMove(
        StandardMove {
            start_position: square_of(origin),
            end_position: square_of(target),
            piece: PieceEnum::WhitePawn,
            en_passant_target: None,
            promotion: None,
            takes: Some((square_of(shift_down(target)), PieceEnum::BlackPawn)),
            check: CheckType::NoCheck,
        },
    )
}

/// The mask of an en passant target, for stating the generator's contract.
pub open spec fn t_mask(en_passant_target: Option<CoordinatePosition>) -> u64 {
    match en_passant_target {
        Some(t) => t.as_mask(),
        None => 0u64,
    }
}

/// One promotion move, promoting to `promo`.
pub open spec fn promotion_move_spec(
    start: CoordinatePosition,
    end: CoordinatePosition,
    takes: Option<(CoordinatePosition, PieceEnum)>,
    promo: PieceEnum,
) -> Move {
    Move::StandardMove(
        StandardMove {
            start_position: start,
            end_position: end,
            piece: PieceEnum::WhitePawn,
            en_passant_target: None,
            promotion: Some(promo),
            takes: takes,
            check: CheckType::NoCheck,
        },
    )
}

/// The four promotion moves for one destination, in knight, bishop, rook,
/// queen order.
pub open spec fn promotion_four(
    start: CoordinatePosition,
    end: CoordinatePosition,
    takes: Option<(CoordinatePosition, PieceEnum)>,
) -> Seq<Move> {
    seq![
        promotion_move_spec(start, end, takes, PieceEnum::WhiteKnight),
        promotion_move_spec(start, end, takes, PieceEnum::WhiteBishop),
        promotion_move_spec(start, end, takes, PieceEnum::WhiteRook),
        promotion_move_spec(start, end, takes, PieceEnum::WhiteQueen),
    ]
}

/// The four quiet promotions onto the square `b`.
pub open spec fn promotion_push_four(b: u64) -> Seq<Move> {
    promotion_four(square_of(shift_down(b)), square_of(b), None)
}

/// The four capturing promotions onto `b`, arriving from down-and-right.
pub open spec fn promotion_left_four(board: BoardBitmasks, b: u64) -> Seq<Move> {
    promotion_four(
        square_of(shift_down_right(b)),
        square_of(b),
        Some((square_of(b), piece_at_of(board, b))),
    )
}

/// The four capturing promotions onto `b`, arriving from down-and-left.
pub open spec fn promotion_right_four(board: BoardBitmasks, b: u64) -> Seq<Move> {
    promotion_four(
        square_of(shift_down_left(b)),
        square_of(b),
        Some((square_of(b), piece_at_of(board, b))),
    )
}

/// All quiet promotions for the destination squares `bits`, in bit order.
pub open spec fn promotion_push_seq(bits: Seq<u64>) -> Seq<Move>
    decreases bits.len(),
{
    if bits.len() == 0 {
        Seq::empty()
    } else {
        promotion_push_four(bits[0]) + promotion_push_seq(bits.drop_first())
    }
}

/// All up-and-left capturing promotions for the destinations `bits`.
pub open spec fn promotion_left_seq(board: BoardBitmasks, bits: Seq<u64>) -> Seq<Move>
    decreases bits.len(),
{
    if bits.len() == 0 {
        Seq::empty()
    } else {
        promotion_left_four(board, bits[0]) + promotion_left_seq(board, bits.drop_first())
    }
}

/// All up-and-right capturing promotions for the destinations `bits`.
pub open spec fn promotion_right_seq(board: BoardBitmasks, bits: Seq<u64>) -> Seq<Move>
    decreases bits.len(),
{
    if bits.len() == 0 {
        Seq::empty()
    } else {
        promotion_right_four(board, bits[0]) + promotion_right_seq(board, bits.drop_first())
    }
}

/// Every move list a white pawn generator may emit, in the order the
/// composite generator concatenates them.
pub open spec fn white_pawn_moves_spec(
    board: BoardBitmasks,
    en_passant: Option<CoordinatePosition>,
) -> Seq<Move> {
    let pawns = board.white_pawns.mask;
    let occupied = board.all_pieces.mask;
    let black = board.black_pieces.mask;
    bits_of(single_step_dests(pawns, occupied)).map_values(|b: u64| simple_move_spec(b)) + bits_of(
        double_step_dests(pawns, occupied),
    ).map_values(|b: u64| double_move_spec(b)) + bits_of(capture_left_dests(pawns, black)).map_values(
        |b: u64| capture_left_move_spec(board, b),
    ) + bits_of(capture_right_dests(pawns, black)).map_values(
        |b: u64| capture_right_move_spec(board, b),
    ) + (match en_passant {
        None => Seq::<Move>::empty(),
        Some(t) => bits_of(en_passant_origins(pawns, board.black_pawns.mask, t.as_mask())).map_values(
            |p: u64| en_passant_move_spec(t.as_mask(), p),
        ),
    }) + promotion_push_seq(bits_of(promotion_push_dests(pawns, occupied)))
        + promotion_left_seq(board, bits_of(promotion_capture_left_dests(pawns, black)))
        + promotion_right_seq(board, bits_of(promotion_capture_right_dests(pawns, black)))
}

/// A destination bit reached by an edge-aware up-type shift has a single
/// origin square one opposite step back, inside the mask that was shifted.
proof fn lemma_pawn_origin(b: u64, x: u64)
    ensures
        (is_single_bit(b) && b & shift_up(x) == b) ==> (is_single_bit(shift_down(b)) && shift_down(
            b,
        ) & x == shift_down(b)),
        (is_single_bit(b) && b & shift_up_left(x) == b) ==> (is_single_bit(shift_down_right(b))
            && shift_down_right(b) & x == shift_down_right(b)),
        (is_single_bit(b) && b & shift_up_right(x) == b) ==> (is_single_bit(shift_down_left(b))
            && shift_down_left(b) & x == shift_down_left(b)),
{
    crate::shared::lemma_single_bit_shape(b);
    crate::shared::lemma_single_bit_shape(shift_down(b));
    crate::shared::lemma_single_bit_shape(shift_down_right(b));
    crate::shared::lemma_single_bit_shape(shift_down_left(b));
    assert(((b != 0 && b & (b - 1) as u64 == 0 && b & shift_up(x) == b) ==> (shift_down(b) != 0
        && shift_down(b) & (shift_down(b) - 1) as u64 == 0 && shift_down(b) & x == shift_down(b)))
        && ((b != 0 && b & (b - 1) as u64 == 0 && b & shift_up_left(x) == b) ==> (shift_down_right(
        b,
    ) != 0 && shift_down_right(b) & (shift_down_right(b) - 1) as u64 == 0 && shift_down_right(b)
        & x == shift_down_right(b))) && ((b != 0 && b & (b - 1) as u64 == 0 && b & shift_up_right(
        x,
    ) == b) ==> (shift_down_left(b) != 0 && shift_down_left(b) & (shift_down_left(b) - 1) as u64
        == 0 && shift_down_left(b) & x == shift_down_left(b)))) by (bit_vector);
}

/// When some pawn stands on a fifth-rank square diagonally below the en
/// passant target, the square below the target is a real square.
proof fn lemma_ep_target_below(t: u64, p: u64)
    ensures
        (is_single_bit(t) && is_single_bit(p) && p & ((shift_down_left(t) | shift_down_right(t))
            & RANK_FIVE) == p) ==> is_single_bit(shift_down(t)),
{
    crate::shared::lemma_single_bit_shape(t);
    crate::shared::lemma_single_bit_shape(p);
    crate::shared::lemma_single_bit_shape(shift_down(t));
    assert((t != 0 && t & (t - 1) as u64 == 0 && p != 0 && p & (p - 1) as u64 == 0 && p & ((
    shift_down_left(t) | shift_down_right(t)) & RANK_FIVE) == p) ==> (shift_down(t) != 0
        && shift_down(t) & (shift_down(t) - 1) as u64 == 0)) by (bit_vector);
}

/// Creates the record of a quiet single-square white pawn move.
pub fn create_simple_white_pawn_move(starting_position: u64, ending_position: u64) -> (r: Result<
    StandardMove,
    MoveError,
>)
    ensures
        r == (match (square_from_mask(starting_position), square_from_mask(ending_position)) {
            (Ok(s), Ok(e)) => Ok::<StandardMove, MoveError>(
                StandardMove {
                    start_position: s,
                    end_position: e,
                    piece: PieceEnum::WhitePawn,
                    en_passant_target: None,
                    promotion: None,
                    takes: None,
                    check: CheckType::NoCheck,
                },
            ),
            (Err(e), _) => Err::<StandardMove, MoveError>(MoveError::CoordinateError(e)),
            (_, Err(e)) => Err::<StandardMove, MoveError>(MoveError::CoordinateError(e)),
        }),
{
    let start = match CoordinatePosition::from_bitmask(starting_position) {
        Ok(c) => c,
        Err(e) => {
            return Err(MoveError::CoordinateError(e));
        },
    };
    let end = match CoordinatePosition::from_bitmask(ending_position) {
        Ok(c) => c,
        Err(e) => {
            return Err(MoveError::CoordinateError(e));
        },
    };
    let new_move = StandardMove::new(
        start,
        end,
        PieceEnum::WhitePawn,
        None,
        None,
        None,
        CheckType::NoCheck,
    );
    Ok(new_move)
}

/// Creates the record of a double-step white pawn move, carrying the crossed
/// square as the en passant target.
pub fn create_double_white_pawn_move(starting_position: u64, ending_position: u64) -> (r: Result<
    StandardMove,
    MoveError,
>)
    ensures
        r == (match (
            square_from_mask(starting_position),
            square_from_mask(ending_position),
            square_from_mask(shift_down(ending_position)),
        ) {
            (Ok(s), Ok(e), Ok(t)) => Ok::<StandardMove, MoveError>(
                StandardMove {
                    start_position: s,
                    end_position: e,
                    piece: PieceEnum::WhitePawn,
                    en_passant_target: Some(t),
                    promotion: None,
                    takes: None,
                    check: CheckType::NoCheck,
                },
            ),
            (Err(e), _, _) => Err::<StandardMove, MoveError>(MoveError::CoordinateError(e)),
            (_, Err(e), _) => Err::<StandardMove, MoveError>(MoveError::CoordinateError(e)),
            (_, _, Err(e)) => Err::<StandardMove, MoveError>(MoveError::CoordinateError(e)),
        }),
{
    let start = match CoordinatePosition::from_bitmask(starting_position) {
        Ok(c) => c,
        Err(e) => {
            return Err(MoveError::CoordinateError(e));
        },
    };
    let end = match CoordinatePosition::from_bitmask(ending_position) {
        Ok(c) => c,
        Err(e) => {
            return Err(MoveError::CoordinateError(e));
        },
    };
    // needs an en passant target
    let target = match CoordinatePosition::from_bitmask(
        ending_position.shift_move(ChessDirection::Down),
    ) {
        Ok(c) => c,
        Err(e) => {
            return Err(MoveError::CoordinateError(e));
        },
    };
    let new_move = StandardMove::new(
        start,
        end,
        PieceEnum::WhitePawn,
        Some(target),
        None,
        None,
        CheckType::NoCheck,
    );
    Ok(new_move)
}

impl BoardBitmasks {
    /// Emits the quiet single-step advances of the white pawns outside the
    /// promotion rank, in ascending destination order.
    pub fn calculate_white_pawn_moves_single_step(&self, occupied: u64) -> (r: Result<
        Vec<Move>,
        MoveError,
    >)
        ensures
            r matches Ok(moves) && moves@ == bits_of(
                single_step_dests(self.white_pawns.mask, occupied),
            ).map_values(|b: u64| simple_move_spec(b)),
    {
        let mut output: Vec<Move> = Vec::with_capacity(8);
        // no valid pawns on row 1
        // pawns on row 7 need to handle promotion moves
        // pawns on row 8 should already be promoted
        let valid_pawns = self.white_pawns.mask & ROWS_TWO_TO_SIX;
        let mut valid_moves = valid_pawns.shift_move(ChessDirection::Up) & !occupied;
        let ghost dests = valid_moves;
        proof {
            assert(output@ =~= bits_of(dests).take(0).map_values(|b: u64| simple_move_spec(b)));
        }
        while valid_moves != 0
            invariant
                dests == single_step_dests(self.white_pawns.mask, occupied),
                bits_of(dests) == bits_of(dests).take(output@.len() as int) + bits_of(valid_moves),
                output@ == bits_of(dests).take(output@.len() as int).map_values(
                    |b: u64| simple_move_spec(b),
                ),
            decreases valid_moves,
        {
            let ghost n = output@.len() as int;
            let next_move = next_single_bit(valid_moves);  // get next valid move
            let starting_position = next_move.shift_move(ChessDirection::Down);  // find the starting position
            proof {
                lemma_bits_of_elems(dests);
                assert(bits_of(dests)[n] == next_move);
                assert(is_single_bit(next_move) && next_move & dests == next_move);
                crate::shared::lemma_absorb(
                    next_move,
                    shift_up(self.white_pawns.mask & ROWS_TWO_TO_SIX),
                    !occupied,
                );
                assert(next_move & shift_up(self.white_pawns.mask & ROWS_TWO_TO_SIX) == next_move);
                lemma_pawn_origin(next_move, self.white_pawns.mask & ROWS_TWO_TO_SIX);
                lemma_mask_square_round_trip(next_move);
                lemma_mask_square_round_trip(starting_position);
            }
            output.push(
                // add to output
                Move::StandardMove(create_simple_white_pawn_move(starting_position, next_move)?),
            );
            valid_moves = valid_moves & !next_move;  // remove that move
            proof {
                assert(bits_of(dests).take(n + 1) =~= bits_of(dests).take(n) + seq![next_move]);
                assert(output@ =~= bits_of(dests).take(n + 1).map_values(
                    |b: u64| simple_move_spec(b),
                ));
                assert(bits_of(dests) =~= bits_of(dests).take(n + 1) + bits_of(valid_moves));
            }
        }
        proof {
            lemma_bits_of_zero();
            assert(output@ =~= bits_of(dests).map_values(|b: u64| simple_move_spec(b)));
        }
        Ok(output)  // return output
    }

    /// Emits the double-step advances of the white pawns on their starting
    /// rank, each carrying the square it crossed as the en passant target.
    pub fn calculate_white_pawn_moves_double_step(&self, occupied: u64) -> (r: Result<
        Vec<Move>,
        MoveError,
    >)
        ensures
            r matches Ok(moves) && moves@ == bits_of(
                double_step_dests(self.white_pawns.mask, occupied),
            ).map_values(|b: u64| double_move_spec(b)),
    {
        let mut output: Vec<Move> = Vec::with_capacity(8);
        // only applies to pawns on row 2
        let valid_pawns = self.white_pawns.mask & RANK_TWO;
        // need to ensure the pawns can step forwards once
        let valid_first_step = valid_pawns.shift_move(ChessDirection::Up) & !occupied;
        // and again
        let mut valid_moves = valid_first_step.shift_move(ChessDirection::Up) & !occupied;
        let ghost dests = valid_moves;
        let ghost first = valid_first_step;
        proof {
            assert(output@ =~= bits_of(dests).take(0).map_values(|b: u64| double_move_spec(b)));
        }
        while valid_moves != 0
            invariant
                first == shift_up(self.white_pawns.mask & RANK_TWO) & !occupied,
                dests == double_step_dests(self.white_pawns.mask, occupied),
                dests == shift_up(first) & !occupied,
                bits_of(dests) == bits_of(dests).take(output@.len() as int) + bits_of(valid_moves),
                output@ == bits_of(dests).take(output@.len() as int).map_values(
                    |b: u64| double_move_spec(b),
                ),
            decreases valid_moves,
        {
            let ghost n = output@.len() as int;
            let next_move = next_single_bit(valid_moves);  // get next valid move
            // find the starting position two rows back
            let starting_position = next_move.shift_move(ChessDirection::Down).shift_move(
                ChessDirection::Down,
            );
            proof {
                lemma_bits_of_elems(dests);
                assert(bits_of(dests)[n] == next_move);
                assert(is_single_bit(next_move) && next_move & dests == next_move);
                crate::shared::lemma_absorb(next_move, shift_up(first), !occupied);
                assert(next_move & shift_up(first) == next_move);
                lemma_pawn_origin(next_move, first);
                crate::shared::lemma_absorb(
                    shift_down(next_move),
                    shift_up(self.white_pawns.mask & RANK_TWO),
                    !occupied,
                );
                assert(shift_down(next_move) & (shift_up(self.white_pawns.mask & RANK_TWO))
                    == shift_down(next_move));
                lemma_pawn_origin(shift_down(next_move), self.white_pawns.mask & RANK_TWO);
                lemma_mask_square_round_trip(next_move);
                lemma_mask_square_round_trip(shift_down(next_move));
                lemma_mask_square_round_trip(shift_down(shift_down(next_move)));
            }
            output.push(
                // add to output
                Move::StandardMove(create_double_white_pawn_move(starting_position, next_move)?),
            );
            valid_moves = valid_moves & !next_move;  // remove that move
            proof {
                assert(bits_of(dests).take(n + 1) =~= bits_of(dests).take(n) + seq![next_move]);
                assert(output@ =~= bits_of(dests).take(n + 1).map_values(
                    |b: u64| double_move_spec(b),
                ));
                assert(bits_of(dests) =~= bits_of(dests).take(n + 1) + bits_of(valid_moves));
            }
        }
        proof {
            lemma_bits_of_zero();
            assert(output@ =~= bits_of(dests).map_values(|b: u64| double_move_spec(b)));
        }
        Ok(output)
    }

    /// Emits the up-and-left captures of the white pawns outside the
    /// promotion rank, resolving each captured piece.
    pub fn calculate_white_pawn_moves_capture_left(&self) -> (r: Result<Vec<Move>, MoveError>)
        requires
            aggregates_consistent(*self),
        ensures
            r matches Ok(moves) && moves@ == bits_of(
                capture_left_dests(self.white_pawns.mask, self.black_pieces.mask),
            ).map_values(|b: u64| capture_left_move_spec(*self, b)),
    {
        let mut output: Vec<Move> = Vec::with_capacity(8);
        // valid from rows 2-6 and only for pawns that can move left (ie not in column A)
        let valid_pawns = self.white_pawns.mask & VALID_SQUARES_NOT_IN_COLUMN_A;
        // valid moves move up and left one, and must capture a black piece
        let mut valid_captures = valid_pawns.shift_move(ChessDirection::UpLeft)
            & self.black_pieces.mask;
        let ghost dests = valid_captures;
        proof {
            assert(output@ =~= bits_of(dests).take(0).map_values(
                |b: u64| capture_left_move_spec(*self, b),
            ));
        }
        while valid_captures != 0
            invariant
                aggregates_consistent(*self),
                dests == capture_left_dests(self.white_pawns.mask, self.black_pieces.mask),
                bits_of(dests) == bits_of(dests).take(output@.len() as int) + bits_of(
                    valid_captures,
                ),
                output@ == bits_of(dests).take(output@.len() as int).map_values(
                    |b: u64| capture_left_move_spec(*self, b),
                ),
            decreases valid_captures,
        {
            let ghost n = output@.len() as int;
            let next_move = next_single_bit(valid_captures);  // get next valid move
            // find the starting position one row back and to the right
            let starting_position = next_move.shift_move(ChessDirection::DownRight);
            proof {
                lemma_bits_of_elems(dests);
                assert(bits_of(dests)[n] == next_move);
                assert(is_single_bit(next_move) && next_move & dests == next_move);
                crate::shared::lemma_absorb(
                    next_move,
                    shift_up_left(self.white_pawns.mask & VALID_SQUARES_NOT_IN_COLUMN_A),
                    self.black_pieces.mask,
                );
                assert(next_move & shift_up_left(
                    self.white_pawns.mask & VALID_SQUARES_NOT_IN_COLUMN_A,
                ) == next_move);
                assert(next_move & self.black_pieces.mask == next_move);
                lemma_pawn_origin(next_move, self.white_pawns.mask & VALID_SQUARES_NOT_IN_COLUMN_A);
                lemma_mask_square_round_trip(next_move);
                lemma_mask_square_round_trip(starting_position);
                lemma_capture_resolves(*self, next_move);
            }
            let coord_next_move = match CoordinatePosition::from_bitmask(next_move) {
                Ok(c) => c,
                Err(e) => {
                    return Err(MoveError::CoordinateError(e));
                },
            };
            let coord_start = match CoordinatePosition::from_bitmask(starting_position) {
                Ok(c) => c,
                Err(e) => {
                    return Err(MoveError::CoordinateError(e));
                },
            };
            let captured = self.get_piece_type_for_capture(coord_next_move)?;
            output.push(
                Move::StandardMove(
                    StandardMove {
                        start_position: coord_start,
                        end_position: coord_next_move,
                        piece: PieceEnum::WhitePawn,
                        en_passant_target: None,
                        promotion: None,
                        takes: Some((coord_next_move, captured)),
                        check: CheckType::NoCheck,
                    },
                ),
            );
            valid_captures = valid_captures & !next_move;  // remove that move
            proof {
                assert(bits_of(dests).take(n + 1) =~= bits_of(dests).take(n) + seq![next_move]);
                assert(output@ =~= bits_of(dests).take(n + 1).map_values(
                    |b: u64| capture_left_move_spec(*self, b),
                ));
                assert(bits_of(dests) =~= bits_of(dests).take(n + 1) + bits_of(valid_captures));
            }
        }
        proof {
            lemma_bits_of_zero();
            assert(output@ =~= bits_of(dests).map_values(|b: u64| capture_left_move_spec(*self, b)));
        }
        Ok(output)
    }

    /// Emits the up-and-right captures of the white pawns outside the
    /// promotion rank.
    pub fn calculate_white_pawn_moves_capture_right(&self) -> (r: Result<Vec<Move>, MoveError>)
        requires
            aggregates_consistent(*self),
        ensures
            r matches Ok(moves) && moves@ == bits_of(
                capture_right_dests(self.white_pawns.mask, self.black_pieces.mask),
            ).map_values(|b: u64| capture_right_move_spec(*self, b)),
    {
        let mut output: Vec<Move> = Vec::with_capacity(8);
        // valid from rows 2-6 and only for pawns that can move right (ie not in column H)
        let valid_pawns = self.white_pawns.mask & VALID_SQUARES_NOT_IN_COLUMN_H;
        // valid moves move up and right one, and must capture a black piece
        let mut valid_captures = valid_pawns.shift_move(ChessDirection::UpRight)
            & self.black_pieces.mask;
        let ghost dests = valid_captures;
        proof {
            assert(output@ =~= bits_of(dests).take(0).map_values(
                |b: u64| capture_right_move_spec(*self, b),
            ));
        }
        while valid_captures != 0
            invariant
                aggregates_consistent(*self),
                dests == capture_right_dests(self.white_pawns.mask, self.black_pieces.mask),
                bits_of(dests) == bits_of(dests).take(output@.len() as int) + bits_of(
                    valid_captures,
                ),
                output@ == bits_of(dests).take(output@.len() as int).map_values(
                    |b: u64| capture_right_move_spec(*self, b),
                ),
            decreases valid_captures,
        {
            let ghost n = output@.len() as int;
            let next_move = next_single_bit(valid_captures);  // get next valid move
            // find the starting position one row back and to the left
            let starting_position = next_move.shift_move(ChessDirection::DownLeft);
            proof {
                lemma_bits_of_elems(dests);
                assert(bits_of(dests)[n] == next_move);
                assert(is_single_bit(next_move) && next_move & dests == next_move);
                crate::shared::lemma_absorb(
                    next_move,
                    shift_up_right(self.white_pawns.mask & VALID_SQUARES_NOT_IN_COLUMN_H),
                    self.black_pieces.mask,
                );
                assert(next_move & shift_up_right(
                    self.white_pawns.mask & VALID_SQUARES_NOT_IN_COLUMN_H,
                ) == next_move);
                assert(next_move & self.black_pieces.mask == next_move);
                lemma_pawn_origin(next_move, self.white_pawns.mask & VALID_SQUARES_NOT_IN_COLUMN_H);
                lemma_mask_square_round_trip(next_move);
                lemma_mask_square_round_trip(starting_position);
                lemma_capture_resolves(*self, next_move);
            }
            let coord_next_move = match CoordinatePosition::from_bitmask(next_move) {
                Ok(c) => c,
                Err(e) => {
                    return Err(MoveError::CoordinateError(e));
                },
            };
            let coord_start = match CoordinatePosition::from_bitmask(starting_position) {
                Ok(c) => c,
                Err(e) => {
                    return Err(MoveError::CoordinateError(e));
                },
            };
            let captured = self.get_piece_type_for_capture(coord_next_move)?;
            output.push(
                Move::StandardMove(
                    StandardMove {
                        start_position: coord_start,
                        end_position: coord_next_move,
                        piece: PieceEnum::WhitePawn,
                        en_passant_target: None,
                        promotion: None,
                        takes: Some((coord_next_move, captured)),
                        check: CheckType::NoCheck,
                    },
                ),
            );
            valid_captures = valid_captures & !next_move;  // remove that move
            proof {
                assert(bits_of(dests).take(n + 1) =~= bits_of(dests).take(n) + seq![next_move]);
                assert(output@ =~= bits_of(dests).take(n + 1).map_values(
                    |b: u64| capture_right_move_spec(*self, b),
                ));
                assert(bits_of(dests) =~= bits_of(dests).take(n + 1) + bits_of(valid_captures));
            }
        }
        proof {
            lemma_bits_of_zero();
            assert(output@ =~= bits_of(dests).map_values(
                |b: u64| capture_right_move_spec(*self, b),
            ));
        }
        Ok(output)
    }

    /// Emits the en passant captures onto `en_passant_target`, one for each
    /// white pawn standing diagonally below it; nothing when no target is
    /// set.
    pub fn calculate_white_pawn_moves_en_passant(
        &self,
        en_passant_target: Option<CoordinatePosition>,
    ) -> (r: Result<Vec<Move>, MoveError>)
        ensures
            r matches Ok(moves) && moves@ == (match en_passant_target {
                None => Seq::<Move>::empty(),
                Some(t) => bits_of(
                    en_passant_origins(self.white_pawns.mask, self.black_pawns.mask, t.as_mask()),
                ).map_values(|p: u64| en_passant_move_spec(t.as_mask(), p)),
            }),
    {
        let target = match en_passant_target {
            None => {
                return Ok(Vec::new());
            },
            Some(t) => t,
        };
        let mut output: Vec<Move> = Vec::with_capacity(2);
        let target_mask = target.to_bitmask();
        // the capture is only real when the black pawn that leapt over the
        // target actually stands just below it
        if target_mask.shift_move(ChessDirection::Down) & self.black_pawns.mask == 0 {
            proof {
                crate::chess_state::coordinate_point::lemma_square_mask_round_trip(target);
                lemma_bits_of_zero();
                assert(output@ =~= bits_of(
                    en_passant_origins(self.white_pawns.mask, self.black_pawns.mask, t_mask(
                        en_passant_target,
                    )),
                ).map_values(|p: u64| en_passant_move_spec(t_mask(en_passant_target), p)));
            }
            return Ok(output);
        }
        // step back-and-left and back-and-right from the target to find the
        // two squares a capturing pawn may stand on, on the capturing rank
        let valid_capture_positions = (target_mask.shift_move(ChessDirection::DownLeft)
            | target_mask.shift_move(ChessDirection::DownRight)) & RANK_FIVE;
        // check if there are any pawns occupying those positions
        let mut valid_pawns = self.white_pawns.mask & valid_capture_positions;
        let ghost origins = valid_pawns;
        proof {
            crate::chess_state::coordinate_point::lemma_square_mask_round_trip(target);
            lemma_bits_of_zero();
            assert(output@ =~= bits_of(origins).take(0).map_values(
                |p: u64| en_passant_move_spec(target.as_mask(), p),
            ));
        }
        while valid_pawns != 0
            invariant
                is_single_bit(target_mask),
                target_mask == target.as_mask(),
                shift_down(target_mask) & self.black_pawns.mask != 0,
                origins == en_passant_origins(
                    self.white_pawns.mask,
                    self.black_pawns.mask,
                    target_mask,
                ),
                bits_of(origins) == bits_of(origins).take(output@.len() as int) + bits_of(
                    valid_pawns,
                ),
                output@ == bits_of(origins).take(output@.len() as int).map_values(
                    |p: u64| en_passant_move_spec(target_mask, p),
                ),
            decreases valid_pawns,
        {
            let ghost n = output@.len() as int;
            let starting_position = next_single_bit(valid_pawns);
            proof {
                lemma_bits_of_elems(origins);
                assert(bits_of(origins)[n] == starting_position);
                assert(is_single_bit(starting_position) && starting_position & origins
                    == starting_position);
                crate::shared::lemma_absorb(
                    starting_position,
                    self.white_pawns.mask,
                    (shift_down_left(target_mask) | shift_down_right(target_mask)) & RANK_FIVE,
                );
                assert(starting_position & ((shift_down_left(target_mask) | shift_down_right(
                    target_mask,
                )) & RANK_FIVE) == starting_position);
                lemma_ep_target_below(target_mask, starting_position);
                lemma_mask_square_round_trip(starting_position);
                lemma_mask_square_round_trip(target_mask);
                lemma_mask_square_round_trip(shift_down(target_mask));
            }
            let coord_start = match CoordinatePosition::from_bitmask(starting_position) {
                Ok(c) => c,
                Err(e) => {
                    return Err(MoveError::CoordinateError(e));
                },
            };
            let coord_target = match CoordinatePosition::from_bitmask(target_mask) {
                Ok(c) => c,
                Err(e) => {
                    return Err(MoveError::CoordinateError(e));
                },
            };
            let coord_taken = match CoordinatePosition::from_bitmask(
                target_mask.shift_move(ChessDirection::Down),
            ) {
                Ok(c) => c,
                Err(e) => {
                    return Err(MoveError::CoordinateError(e));
                },
            };
            output.push(
                Move::StandardMove(
                    StandardMove {
                        start_position: coord_start,
                        end_position: coord_target,
                        piece: PieceEnum::WhitePawn,
                        en_passant_target: None,
                        promotion: None,
                        takes: Some((coord_taken, PieceEnum::BlackPawn)),
                        check: CheckType::NoCheck,
                    },
                ),
            );
            valid_pawns = valid_pawns & !starting_position;  // remove pawn
            proof {
                assert(bits_of(origins).take(n + 1) =~= bits_of(origins).take(n)
                    + seq![starting_position]);
                assert(output@ =~= bits_of(origins).take(n + 1).map_values(
                    |p: u64| en_passant_move_spec(target_mask, p),
                ));
                assert(bits_of(origins) =~= bits_of(origins).take(n + 1) + bits_of(valid_pawns));
            }
        }
        proof {
            lemma_bits_of_zero();
            assert(output@ =~= bits_of(origins).map_values(
                |p: u64| en_passant_move_spec(target_mask, p),
            ));
        }
        Ok(output)
    }

    /// Emits the promotions of the white pawns on the seventh rank: for each
    /// free square ahead and each capturable square diagonally ahead, four
    /// moves, one per promotion piece.
    #[verifier::rlimit(100)]
    #[verifier::spinoff_prover]
    pub fn calculate_white_pawn_promotions(&self, occupied: u64) -> (r: Result<
        Vec<Move>,
        MoveError,
    >)
        requires
            aggregates_consistent(*self),
        ensures
            r matches Ok(moves) && moves@ == promotion_push_seq(
                bits_of(promotion_push_dests(self.white_pawns.mask, occupied)),
            ) + promotion_left_seq(
                *self,
                bits_of(promotion_capture_left_dests(self.white_pawns.mask, self.black_pieces.mask)),
            ) + promotion_right_seq(
                *self,
                bits_of(
                    promotion_capture_right_dests(self.white_pawns.mask, self.black_pieces.mask),
                ),
            ),
    {
        let mut output: Vec<Move> = Vec::with_capacity(32);
        let valid_pawns = self.white_pawns.mask & RANK_SEVEN;

        // there may be no valid pawn at all; the loops below then do nothing
        // forward pushes onto a free square
        let mut valid_move_forward = valid_pawns.shift_move(ChessDirection::Up) & !occupied;
        let ghost push_dests = valid_move_forward;
        let ghost push_bits = bits_of(push_dests);
        let ghost mut done: int = 0;
        proof {
            assert(push_bits.take(0) =~= Seq::<u64>::empty());
            assert(output@ =~= promotion_push_seq(push_bits.take(0)));
        }
        while valid_move_forward != 0
            invariant
                push_dests == promotion_push_dests(self.white_pawns.mask, occupied),
                push_bits == bits_of(push_dests),
                0 <= done <= push_bits.len(),
                push_bits == push_bits.take(done) + bits_of(valid_move_forward),
                output@ == promotion_push_seq(push_bits.take(done)),
            decreases valid_move_forward,
        {
            let ghost n = done;
            let next_move = next_single_bit(valid_move_forward);
            let starting_position = next_move.shift_move(ChessDirection::Down);
            proof {
                lemma_bits_of_elems(push_dests);
                assert(push_bits[n] == next_move);
                assert(is_single_bit(next_move) && next_move & push_dests == next_move);
                crate::shared::lemma_absorb(
                    next_move,
                    shift_up(self.white_pawns.mask & RANK_SEVEN),
                    !occupied,
                );
                assert(next_move & shift_up(self.white_pawns.mask & RANK_SEVEN) == next_move);
                lemma_pawn_origin(next_move, self.white_pawns.mask & RANK_SEVEN);
                lemma_mask_square_round_trip(next_move);
                lemma_mask_square_round_trip(starting_position);
            }
            let coord_next_move = match CoordinatePosition::from_bitmask(next_move) {
                Ok(c) => c,
                Err(e) => {
                    return Err(MoveError::CoordinateError(e));
                },
            };
            let coord_starting_pos = match CoordinatePosition::from_bitmask(starting_position) {
                Ok(c) => c,
                Err(e) => {
                    return Err(MoveError::CoordinateError(e));
                },
            };
            output.push(
                Move::StandardMove(
                    StandardMove {
                        start_position: coord_starting_pos,
                        end_position: coord_next_move,
                        piece: PieceEnum::WhitePawn,
                        en_passant_target: None,
                        promotion: Some(PieceEnum::WhiteKnight),
                        takes: None,
                        check: CheckType::NoCheck,
                    },
                ),
            );
            output.push(
                Move::StandardMove(
                    StandardMove {
                        start_position: coord_starting_pos,
                        end_position: coord_next_move,
                        piece: PieceEnum::WhitePawn,
                        en_passant_target: None,
                        promotion: Some(PieceEnum::WhiteBishop),
                        takes: None,
                        check: CheckType::NoCheck,
                    },
                ),
            );
            output.push(
                Move::StandardMove(
                    StandardMove {
                        start_position: coord_starting_pos,
                        end_position: coord_next_move,
                        piece: PieceEnum::WhitePawn,
                        en_passant_target: None,
                        promotion: Some(PieceEnum::WhiteRook),
                        takes: None,
                        check: CheckType::NoCheck,
                    },
                ),
            );
            output.push(
                Move::StandardMove(
                    StandardMove {
                        start_position: coord_starting_pos,
                        end_position: coord_next_move,
                        piece: PieceEnum::WhitePawn,
                        en_passant_target: None,
                        promotion: Some(PieceEnum::WhiteQueen),
                        takes: None,
                        check: CheckType::NoCheck,
                    },
                ),
            );
            valid_move_forward = valid_move_forward & !next_move;
            proof {
                done = done + 1;
                lemma_promotion_seq_step(push_bits, n);
                assert(push_bits.take(n + 1) =~= push_bits.take(n) + seq![next_move]);
                assert(output@ =~= promotion_push_seq(push_bits.take(n)) + promotion_push_four(
                    next_move,
                ));
                assert(output@ =~= promotion_push_seq(push_bits.take(done)));
                assert(push_bits =~= push_bits.take(done) + bits_of(valid_move_forward));
            }
        }
        proof {
            lemma_bits_of_zero();
            assert(push_bits =~= push_bits.take(done));
            assert(output@ =~= promotion_push_seq(push_bits));
        }
        // captures up-and-left that promote
        let mut valid_capture_left = (valid_pawns & ROW_SEVEN_NOT_COLUMN_A).shift_move(
            ChessDirection::UpLeft,
        ) & self.black_pieces.mask;
        let ghost left_dests = valid_capture_left;
        let ghost left_bits = bits_of(left_dests);
        proof {
            done = 0;
            assert(left_bits.take(0) =~= Seq::<u64>::empty());
            assert(output@ =~= promotion_push_seq(push_bits) + promotion_left_seq(
                *self,
                left_bits.take(0),
            ));
        }
        while valid_capture_left != 0
            invariant
                aggregates_consistent(*self),
                push_bits == bits_of(promotion_push_dests(self.white_pawns.mask, occupied)),
                left_dests == promotion_capture_left_dests(
                    self.white_pawns.mask,
                    self.black_pieces.mask,
                ),
                left_bits == bits_of(left_dests),
                0 <= done <= left_bits.len(),
                left_bits == left_bits.take(done) + bits_of(valid_capture_left),
                output@ == promotion_push_seq(push_bits) + promotion_left_seq(
                    *self,
                    left_bits.take(done),
                ),
            decreases valid_capture_left,
        {
            let ghost n = done;
            let next_move = next_single_bit(valid_capture_left);
            let starting_position = next_move.shift_move(ChessDirection::DownRight);
            proof {
                lemma_bits_of_elems(left_dests);
                assert(left_bits[n] == next_move);
                assert(is_single_bit(next_move) && next_move & left_dests == next_move);
                crate::shared::lemma_absorb(
                    next_move,
                    shift_up_left((self.white_pawns.mask & RANK_SEVEN) & ROW_SEVEN_NOT_COLUMN_A),
                    self.black_pieces.mask,
                );
                assert(next_move & shift_up_left(
                    (self.white_pawns.mask & RANK_SEVEN) & ROW_SEVEN_NOT_COLUMN_A,
                ) == next_move);
                assert(next_move & self.black_pieces.mask == next_move);
                lemma_pawn_origin(
                    next_move,
                    (self.white_pawns.mask & RANK_SEVEN) & ROW_SEVEN_NOT_COLUMN_A,
                );
                lemma_mask_square_round_trip(next_move);
                lemma_mask_square_round_trip(starting_position);
                lemma_capture_resolves(*self, next_move);
            }
            let coord_next_move = match CoordinatePosition::from_bitmask(next_move) {
                Ok(c) => c,
                Err(e) => {
                    return Err(MoveError::CoordinateError(e));
                },
            };
            let coord_starting_pos = match CoordinatePosition::from_bitmask(starting_position) {
                Ok(c) => c,
                Err(e) => {
                    return Err(MoveError::CoordinateError(e));
                },
            };
            let captured_piece = self.get_piece_type_for_capture(coord_next_move)?;
            output.push(
                Move::StandardMove(
                    StandardMove {
                        start_position: coord_starting_pos,
                        end_position: coord_next_move,
                        piece: PieceEnum::WhitePawn,
                        en_passant_target: None,
                        promotion: Some(PieceEnum::WhiteKnight),
                        takes: Some((coord_next_move, captured_piece)),
                        check: CheckType::NoCheck,
                    },
                ),
            );
            output.push(
                Move::StandardMove(
                    StandardMove {
                        start_position: coord_starting_pos,
                        end_position: coord_next_move,
                        piece: PieceEnum::WhitePawn,
                        en_passant_target: None,
                        promotion: Some(PieceEnum::WhiteBishop),
                        takes: Some((coord_next_move, captured_piece)),
                        check: CheckType::NoCheck,
                    },
                ),
            );
            output.push(
                Move::StandardMove(
                    StandardMove {
                        start_position: coord_starting_pos,
                        end_position: coord_next_move,
                        piece: PieceEnum::WhitePawn,
                        en_passant_target: None,
                        promotion: Some(PieceEnum::WhiteRook),
                        takes: Some((coord_next_move, captured_piece)),
                        check: CheckType::NoCheck,
                    },
                ),
            );
            output.push(
                Move::StandardMove(
                    StandardMove {
                        start_position: coord_starting_pos,
                        end_position: coord_next_move,
                        piece: PieceEnum::WhitePawn,
                        en_passant_target: None,
                        promotion: Some(PieceEnum::WhiteQueen),
                        takes: Some((coord_next_move, captured_piece)),
                        check: CheckType::NoCheck,
                    },
                ),
            );
            valid_capture_left = valid_capture_left & !next_move;
            proof {
                done = done + 1;
                lemma_promotion_left_seq_step(*self, left_bits, n);
                assert(left_bits.take(n + 1) =~= left_bits.take(n) + seq![next_move]);
                assert(output@ =~= promotion_push_seq(push_bits) + (promotion_left_seq(
                    *self,
                    left_bits.take(n),
                ) + promotion_left_four(*self, next_move)));
                assert(output@ =~= promotion_push_seq(push_bits) + promotion_left_seq(
                    *self,
                    left_bits.take(done),
                ));
                assert(left_bits =~= left_bits.take(done) + bits_of(valid_capture_left));
            }
        }
        proof {
            lemma_bits_of_zero();
            assert(left_bits =~= left_bits.take(done));
            assert(output@ =~= promotion_push_seq(push_bits) + promotion_left_seq(
                *self,
                left_bits,
            ));
        }
        // captures up-and-right that promote
        let mut valid_capture_right = (valid_pawns & ROW_SEVEN_NOT_COLUMN_H).shift_move(
            ChessDirection::UpRight,
        ) & self.black_pieces.mask;
        let ghost right_dests = valid_capture_right;
        let ghost right_bits = bits_of(right_dests);
        proof {
            done = 0;
            assert(right_bits.take(0) =~= Seq::<u64>::empty());
            assert(output@ =~= promotion_push_seq(push_bits) + promotion_left_seq(
                *self,
                left_bits,
            ) + promotion_right_seq(*self, right_bits.take(0)));
        }
        while valid_capture_right != 0
            invariant
                aggregates_consistent(*self),
                push_bits == bits_of(promotion_push_dests(self.white_pawns.mask, occupied)),
                left_bits == bits_of(
                    promotion_capture_left_dests(self.white_pawns.mask, self.black_pieces.mask),
                ),
                right_dests == promotion_capture_right_dests(
                    self.white_pawns.mask,
                    self.black_pieces.mask,
                ),
                right_bits == bits_of(right_dests),
                0 <= done <= right_bits.len(),
                right_bits == right_bits.take(done) + bits_of(valid_capture_right),
                output@ == promotion_push_seq(push_bits) + promotion_left_seq(*self, left_bits)
                    + promotion_right_seq(*self, right_bits.take(done)),
            decreases valid_capture_right,
        {
            let ghost n = done;
            let next_move = next_single_bit(valid_capture_right);
            let starting_position = next_move.shift_move(ChessDirection::DownLeft);
            proof {
                lemma_bits_of_elems(right_dests);
                assert(right_bits[n] == next_move);
                assert(is_single_bit(next_move) && next_move & right_dests == next_move);
                crate::shared::lemma_absorb(
                    next_move,
                    shift_up_right((self.white_pawns.mask & RANK_SEVEN) & ROW_SEVEN_NOT_COLUMN_H),
                    self.black_pieces.mask,
                );
                assert(next_move & shift_up_right(
                    (self.white_pawns.mask & RANK_SEVEN) & ROW_SEVEN_NOT_COLUMN_H,
                ) == next_move);
                assert(next_move & self.black_pieces.mask == next_move);
                lemma_pawn_origin(
                    next_move,
                    (self.white_pawns.mask & RANK_SEVEN) & ROW_SEVEN_NOT_COLUMN_H,
                );
                lemma_mask_square_round_trip(next_move);
                lemma_mask_square_round_trip(starting_position);
                lemma_capture_resolves(*self, next_move);
            }
            let coord_next_move = match CoordinatePosition::from_bitmask(next_move) {
                Ok(c) => c,
                Err(e) => {
                    return Err(MoveError::CoordinateError(e));
                },
            };
            let coord_starting_pos = match CoordinatePosition::from_bitmask(starting_position) {
                Ok(c) => c,
                Err(e) => {
                    return Err(MoveError::CoordinateError(e));
                },
            };
            let captured_piece = self.get_piece_type_for_capture(coord_next_move)?;
            output.push(
                Move::StandardMove(
                    StandardMove {
                        start_position: coord_starting_pos,
                        end_position: coord_next_move,
                        piece: PieceEnum::WhitePawn,
                        en_passant_target: None,
                        promotion: Some(PieceEnum::WhiteKnight),
                        takes: Some((coord_next_move, captured_piece)),
                        check: CheckType::NoCheck,
                    },
                ),
            );
            output.push(
                Move::StandardMove(
                    StandardMove {
                        start_position: coord_starting_pos,
                        end_position: coord_next_move,
                        piece: PieceEnum::WhitePawn,
                        en_passant_target: None,
                        promotion: Some(PieceEnum::WhiteBishop),
                        takes: Some((coord_next_move, captured_piece)),
                        check: CheckType::NoCheck,
                    },
                ),
            );
            output.push(
                Move::StandardMove(
                    StandardMove {
                        start_position: coord_starting_pos,
                        end_position: coord_next_move,
                        piece: PieceEnum::WhitePawn,
                        en_passant_target: None,
                        promotion: Some(PieceEnum::WhiteRook),
                        takes: Some((coord_next_move, captured_piece)),
                        check: CheckType::NoCheck,
                    },
                ),
            );
            output.push(
                Move::StandardMove(
                    StandardMove {
                        start_position: coord_starting_pos,
                        end_position: coord_next_move,
                        piece: PieceEnum::WhitePawn,
                        en_passant_target: None,
                        promotion: Some(PieceEnum::WhiteQueen),
                        takes: Some((coord_next_move, captured_piece)),
                        check: CheckType::NoCheck,
                    },
                ),
            );
            valid_capture_right = valid_capture_right & !next_move;
            proof {
                done = done + 1;
                lemma_promotion_right_seq_step(*self, right_bits, n);
                assert(right_bits.take(n + 1) =~= right_bits.take(n) + seq![next_move]);
                assert(output@ =~= promotion_push_seq(push_bits) + promotion_left_seq(
                    *self,
                    left_bits,
                ) + (promotion_right_seq(*self, right_bits.take(n)) + promotion_right_four(
                    *self,
                    next_move,
                )));
                assert(output@ =~= promotion_push_seq(push_bits) + promotion_left_seq(
                    *self,
                    left_bits,
                ) + promotion_right_seq(*self, right_bits.take(done)));
                assert(right_bits =~= right_bits.take(done) + bits_of(valid_capture_right));
            }
        }
        proof {
            lemma_bits_of_zero();
            assert(right_bits =~= right_bits.take(done));
            assert(output@ =~= promotion_push_seq(push_bits) + promotion_left_seq(
                *self,
                left_bits,
            ) + promotion_right_seq(*self, right_bits));
        }
        Ok(output)
    }

    /// Emits every white pawn move: single and double pushes, the two
    /// diagonal captures, en passant, and promotions, in that order.
    pub fn calculate_white_pawn_moves(&self, en_passant: Option<CoordinatePosition>) -> (r: Result<
        Vec<Move>,
        MoveError,
    >)
        requires
            aggregates_consistent(*self),
        ensures
            r matches Ok(moves) && moves@ == white_pawn_moves_spec(*self, en_passant),
    {
        let occupied = self.all_pieces.mask;

        let mut output: Vec<Move> = Vec::new();

        let mut single_step_moves = self.calculate_white_pawn_moves_single_step(occupied)?;
        let mut double_step_moves = self.calculate_white_pawn_moves_double_step(occupied)?;
        let mut capture_left_moves = self.calculate_white_pawn_moves_capture_left()?;
        let mut capture_right_moves = self.calculate_white_pawn_moves_capture_right()?;
        let mut en_passant_moves = self.calculate_white_pawn_moves_en_passant(en_passant)?;
        let mut promotion_moves = self.calculate_white_pawn_promotions(occupied)?;

        output.append(&mut single_step_moves);
        output.append(&mut double_step_moves);
        output.append(&mut capture_left_moves);
        output.append(&mut capture_right_moves);
        output.append(&mut en_passant_moves);
        output.append(&mut promotion_moves);

        proof {
            assert(output@ =~= white_pawn_moves_spec(*self, en_passant));
        }
        Ok(output)
    }
}

/// Appending one destination to a prefix appends its four promotion moves.
proof fn lemma_promotion_seq_step(bits: Seq<u64>, n: int)
    requires
        0 <= n < bits.len(),
    ensures
        promotion_push_seq(bits.take(n + 1)) == promotion_push_seq(bits.take(n))
            + promotion_push_four(bits[n]),
    decreases n,
{
    let s = bits.take(n + 1);
    if n == 0 {
        assert(s.drop_first() =~= bits.take(0));
        assert(promotion_push_seq(bits.take(0)) =~= Seq::<Move>::empty());
        assert(promotion_push_seq(s) =~= promotion_push_four(bits[0]) + promotion_push_seq(
            bits.take(0),
        ));
        assert(promotion_push_seq(s) =~= promotion_push_seq(bits.take(0)) + promotion_push_four(
            bits[0],
        ));
    } else {
        lemma_promotion_seq_step(bits.drop_first(), n - 1);
        assert(s[0] == bits[0]);
        assert(s.drop_first() =~= bits.drop_first().take(n));
        assert(bits.take(n).drop_first() =~= bits.drop_first().take(n - 1));
        assert(bits.drop_first()[n - 1] == bits[n]);
        assert(promotion_push_seq(bits.take(n + 1)) =~= promotion_push_seq(bits.take(n))
            + promotion_push_four(bits[n]));
    }
}

/// Appending one destination to a prefix appends its four capturing
/// promotions.
proof fn lemma_promotion_left_seq_step(board: BoardBitmasks, bits: Seq<u64>, n: int)
    requires
        0 <= n < bits.len(),
    ensures
        promotion_left_seq(board, bits.take(n + 1)) == promotion_left_seq(board, bits.take(n))
            + promotion_left_four(board, bits[n]),
    decreases n,
{
    let s = bits.take(n + 1);
    if n == 0 {
        assert(s.drop_first() =~= bits.take(0));
        assert(promotion_left_seq(board, bits.take(0)) =~= Seq::<Move>::empty());
        assert(promotion_left_seq(board, s) =~= promotion_left_seq(board, bits.take(0))
            + promotion_left_four(board, bits[0]));
    } else {
        lemma_promotion_left_seq_step(board, bits.drop_first(), n - 1);
        assert(s[0] == bits[0]);
        assert(s.drop_first() =~= bits.drop_first().take(n));
        assert(bits.take(n).drop_first() =~= bits.drop_first().take(n - 1));
        assert(bits.drop_first()[n - 1] == bits[n]);
        assert(promotion_left_seq(board, bits.take(n + 1)) =~= promotion_left_seq(
            board,
            bits.take(n),
        ) + promotion_left_four(board, bits[n]));
    }
}

/// Appending one destination to a prefix appends its four capturing
/// promotions.
proof fn lemma_promotion_right_seq_step(board: BoardBitmasks, bits: Seq<u64>, n: int)
    requires
        0 <= n < bits.len(),
    ensures
        promotion_right_seq(board, bits.take(n + 1)) == promotion_right_seq(board, bits.take(n))
            + promotion_right_four(board, bits[n]),
    decreases n,
{
    let s = bits.take(n + 1);
    if n == 0 {
        assert(s.drop_first() =~= bits.take(0));
        assert(promotion_right_seq(board, bits.take(0)) =~= Seq::<Move>::empty());
        assert(promotion_right_seq(board, s) =~= promotion_right_seq(board, bits.take(0))
            + promotion_right_four(board, bits[0]));
    } else {
        lemma_promotion_right_seq_step(board, bits.drop_first(), n - 1);
        assert(s[0] == bits[0]);
        assert(s.drop_first() =~= bits.drop_first().take(n));
        assert(bits.take(n).drop_first() =~= bits.drop_first().take(n - 1));
        assert(bits.drop_first()[n - 1] == bits[n]);
        assert(promotion_right_seq(board, bits.take(n + 1)) =~= promotion_right_seq(
            board,
            bits.take(n),
        ) + promotion_right_four(board, bits[n]));
    }
}


/// Whether a move's `takes` field, when present, names the piece actually
/// standing on the captured square of `board`.
pub open spec fn capture_fields_resolved(board: BoardBitmasks, mv: Move) -> bool {
    match mv {
        Move::StandardMove(sm) => match sm.takes {
            Some(t) => piece_at_spec(board, t.0.as_mask()) == Some(t.1),
            None => true,
        },
        Move::Castle(_) => true,
    }
}

/// Whether a move respects the promotion discipline: it never lands on the
/// first rank, and landing on the eighth rank always carries a white
/// promotion piece.
pub open spec fn promotion_disciplined(mv: Move) -> bool {
    match mv {
        Move::StandardMove(sm) => sm.end_position.y != YCoordinate::One && (sm.end_position.y
            == YCoordinate::Eight ==> (sm.promotion == Some(PieceEnum::WhiteKnight) || sm.promotion
            == Some(PieceEnum::WhiteBishop) || sm.promotion == Some(PieceEnum::WhiteRook)
            || sm.promotion == Some(PieceEnum::WhiteQueen))),
        Move::Castle(_) => true,
    }
}

/// Where the white pawn destination sets can lie: pushes and captures from
/// the middle ranks land between the second and seventh ranks, promotion
/// destinations stay off the first rank, and an en passant target with a
/// capturer on the fifth rank sits on neither edge rank.
proof fn lemma_pawn_dest_ranks(b: u64, x: u64, t: u64, occ: u64, p: u64)
    ensures
        (b & shift_up(x & ROWS_TWO_TO_SIX) == b) ==> (b & RANK_ONE == 0 && b & RANK_EIGHT == 0),
        (b & shift_up_left(x & VALID_SQUARES_NOT_IN_COLUMN_A) == b) ==> (b & RANK_ONE == 0 && b
            & RANK_EIGHT == 0),
        (b & shift_up_right(x & VALID_SQUARES_NOT_IN_COLUMN_H) == b) ==> (b & RANK_ONE == 0 && b
            & RANK_EIGHT == 0),
        (b & shift_up(shift_up(x & RANK_TWO) & occ) == b) ==> (b & RANK_ONE == 0 && b & RANK_EIGHT
            == 0),
        (b & shift_up(x & RANK_SEVEN) == b) ==> b & RANK_ONE == 0,
        (b & shift_up_left((x & RANK_SEVEN) & ROW_SEVEN_NOT_COLUMN_A) == b) ==> b & RANK_ONE == 0,
        (b & shift_up_right((x & RANK_SEVEN) & ROW_SEVEN_NOT_COLUMN_H) == b) ==> b & RANK_ONE == 0,
        (t != 0 && t & (t - 1) as u64 == 0 && p != 0 && p & ((shift_down_left(t)
            | shift_down_right(t)) & RANK_FIVE) == p) ==> (t & RANK_ONE == 0 && t & RANK_EIGHT == 0
            && p & RANK_ONE == 0 && p & RANK_EIGHT == 0),
{
    assert(((b & shift_up(x & ROWS_TWO_TO_SIX) == b) ==> (b & RANK_ONE == 0 && b & RANK_EIGHT
        == 0)) && ((b & shift_up_left(x & VALID_SQUARES_NOT_IN_COLUMN_A) == b) ==> (b & RANK_ONE
        == 0 && b & RANK_EIGHT == 0)) && ((b & shift_up_right(x & VALID_SQUARES_NOT_IN_COLUMN_H)
        == b) ==> (b & RANK_ONE == 0 && b & RANK_EIGHT == 0)) && ((b & shift_up(
        shift_up(x & RANK_TWO) & occ,
    ) == b) ==> (b & RANK_ONE == 0 && b & RANK_EIGHT == 0)) && ((b & shift_up(x & RANK_SEVEN) == b)
        ==> b & RANK_ONE == 0) && ((b & shift_up_left((x & RANK_SEVEN) & ROW_SEVEN_NOT_COLUMN_A)
        == b) ==> b & RANK_ONE == 0) && ((b & shift_up_right(
        (x & RANK_SEVEN) & ROW_SEVEN_NOT_COLUMN_H,
    ) == b) ==> b & RANK_ONE == 0) && ((t != 0 && t & (t - 1) as u64 == 0 && p != 0 && p & ((
    shift_down_left(t) | shift_down_right(t)) & RANK_FIVE) == p) ==> (t & RANK_ONE == 0 && t
        & RANK_EIGHT == 0 && p & RANK_ONE == 0 && p & RANK_EIGHT == 0))) by (bit_vector);
}

/// A single square off the first rank is not on the first rank as a
/// coordinate, and likewise for the eighth.
proof fn lemma_end_rank_bounds(b: u64)
    requires
        is_single_bit(b),
        b & RANK_ONE == 0,
    ensures
        square_of(b).y != YCoordinate::One,
        b & RANK_EIGHT == 0 ==> square_of(b).y != YCoordinate::Eight,
{
    lemma_single_bit_unique_components(b);
    if square_of(b).y == YCoordinate::One {
        assert(b & y_mask(YCoordinate::One) != 0);
        assert(false);
    }
    if b & RANK_EIGHT == 0 && square_of(b).y == YCoordinate::Eight {
        assert(b & y_mask(YCoordinate::Eight) != 0);
        assert(false);
    }
}

/// Every element of a concatenation satisfies a predicate its two parts
/// satisfy.
proof fn lemma_all_elements_concat(s1: Seq<Move>, s2: Seq<Move>, pred: spec_fn(Move) -> bool)
    requires
        forall|j: int| 0 <= j < s1.len() ==> pred(#[trigger] s1[j]),
        forall|j: int| 0 <= j < s2.len() ==> pred(#[trigger] s2[j]),
    ensures
        forall|j: int| 0 <= j < (s1 + s2).len() ==> pred(#[trigger] (s1 + s2)[j]),
{
    assert forall|j: int| 0 <= j < (s1 + s2).len() implies pred(#[trigger] (s1 + s2)[j]) by {
        if j < s1.len() {
            assert((s1 + s2)[j] == s1[j]);
        } else {
            assert((s1 + s2)[j] == s2[j - s1.len()]);
        }
    }
}

/// Every quiet promotion is well shaped: four promotion pieces per
/// destination, no captures, never landing on the first rank.
proof fn lemma_promotion_push_elems(board: BoardBitmasks, bits: Seq<u64>)
    requires
        forall|t: int|
            0 <= t < bits.len() ==> is_single_bit(#[trigger] bits[t]) && bits[t] & RANK_ONE == 0,
    ensures
        forall|j: int|
            0 <= j < promotion_push_seq(bits).len() ==> capture_fields_resolved(
                board,
                #[trigger] promotion_push_seq(bits)[j],
            ) && promotion_disciplined(promotion_push_seq(bits)[j]),
    decreases bits.len(),
{
    if bits.len() > 0 {
        lemma_promotion_push_elems(board, bits.drop_first());
        let b0 = bits[0];
        lemma_end_rank_bounds(b0);
        let s = promotion_push_seq(bits);
        let head = promotion_push_four(b0);
        let rest = promotion_push_seq(bits.drop_first());
        assert(s == head + rest);
        assert forall|j: int| 0 <= j < s.len() implies capture_fields_resolved(
            board,
            #[trigger] s[j],
        ) && promotion_disciplined(s[j]) by {
            if j < 4 {
                assert(s[j] == head[j]);
            } else {
                assert(s[j] == rest[j - 4]);
            }
        }
    }
}

/// Every capturing promotion toward up-and-left is well shaped and resolves
/// its captured piece.
proof fn lemma_promotion_left_elems(board: BoardBitmasks, bits: Seq<u64>)
    requires
        aggregates_consistent(board),
        forall|t: int|
            0 <= t < bits.len() ==> is_single_bit(#[trigger] bits[t]) && bits[t] & RANK_ONE == 0
                && bits[t] & board.black_pieces.mask == bits[t],
    ensures
        forall|j: int|
            0 <= j < promotion_left_seq(board, bits).len() ==> capture_fields_resolved(
                board,
                #[trigger] promotion_left_seq(board, bits)[j],
            ) && promotion_disciplined(promotion_left_seq(board, bits)[j]),
    decreases bits.len(),
{
    if bits.len() > 0 {
        lemma_promotion_left_elems(board, bits.drop_first());
        let b0 = bits[0];
        lemma_end_rank_bounds(b0);
        lemma_mask_square_round_trip(b0);
        lemma_capture_resolves(board, b0);
        let s = promotion_left_seq(board, bits);
        let head = promotion_left_four(board, b0);
        let rest = promotion_left_seq(board, bits.drop_first());
        assert(s == head + rest);
        assert forall|j: int| 0 <= j < s.len() implies capture_fields_resolved(
            board,
            #[trigger] s[j],
        ) && promotion_disciplined(s[j]) by {
            if j < 4 {
                assert(s[j] == head[j]);
            } else {
                assert(s[j] == rest[j - 4]);
            }
        }
    }
}

/// Every capturing promotion toward up-and-right is well shaped and resolves
/// its captured piece.
proof fn lemma_promotion_right_elems(board: BoardBitmasks, bits: Seq<u64>)
    requires
        aggregates_consistent(board),
        forall|t: int|
            0 <= t < bits.len() ==> is_single_bit(#[trigger] bits[t]) && bits[t] & RANK_ONE == 0
                && bits[t] & board.black_pieces.mask == bits[t],
    ensures
        forall|j: int|
            0 <= j < promotion_right_seq(board, bits).len() ==> capture_fields_resolved(
                board,
                #[trigger] promotion_right_seq(board, bits)[j],
            ) && promotion_disciplined(promotion_right_seq(board, bits)[j]),
    decreases bits.len(),
{
    if bits.len() > 0 {
        lemma_promotion_right_elems(board, bits.drop_first());
        let b0 = bits[0];
        lemma_end_rank_bounds(b0);
        lemma_mask_square_round_trip(b0);
        lemma_capture_resolves(board, b0);
        let s = promotion_right_seq(board, bits);
        let head = promotion_right_four(board, b0);
        let rest = promotion_right_seq(board, bits.drop_first());
        assert(s == head + rest);
        assert forall|j: int| 0 <= j < s.len() implies capture_fields_resolved(
            board,
            #[trigger] s[j],
        ) && promotion_disciplined(s[j]) by {
            if j < 4 {
                assert(s[j] == head[j]);
            } else {
                assert(s[j] == rest[j - 4]);
            }
        }
    }
}

/// Single-step moves are quiet and land between the third and seventh ranks.
proof fn lemma_seg_single(board: BoardBitmasks)
    ensures
        forall|j: int|
            0 <= j < bits_of(single_step_dests(board.white_pawns.mask, board.all_pieces.mask)).len()
                ==> capture_fields_resolved(
                board,
                simple_move_spec(
                    #[trigger] bits_of(
                        single_step_dests(board.white_pawns.mask, board.all_pieces.mask),
                    )[j],
                ),
            ) && promotion_disciplined(
                simple_move_spec(
                    bits_of(single_step_dests(board.white_pawns.mask, board.all_pieces.mask))[j],
                ),
            ),
{
    let pawns = board.white_pawns.mask;
    let occupied = board.all_pieces.mask;
    let d = single_step_dests(pawns, occupied);
    let bits = bits_of(d);
    assert forall|j: int| 0 <= j < bits.len() implies capture_fields_resolved(
        board,
        simple_move_spec(#[trigger] bits[j]),
    ) && promotion_disciplined(simple_move_spec(bits[j])) by {
        lemma_bits_of_elems(d);
        let b = bits[j];
        crate::shared::lemma_absorb(b, shift_up(pawns & ROWS_TWO_TO_SIX), !occupied);
        lemma_pawn_dest_ranks(b, pawns, 1, !occupied, 1);
        lemma_end_rank_bounds(b);
    }
}

/// Double-step moves are quiet and land on the fourth rank.
proof fn lemma_seg_double(board: BoardBitmasks)
    ensures
        forall|j: int|
            0 <= j < bits_of(double_step_dests(board.white_pawns.mask, board.all_pieces.mask)).len()
                ==> capture_fields_resolved(
                board,
                double_move_spec(
                    #[trigger] bits_of(
                        double_step_dests(board.white_pawns.mask, board.all_pieces.mask),
                    )[j],
                ),
            ) && promotion_disciplined(
                double_move_spec(
                    bits_of(double_step_dests(board.white_pawns.mask, board.all_pieces.mask))[j],
                ),
            ),
{
    let pawns = board.white_pawns.mask;
    let occupied = board.all_pieces.mask;
    let d = double_step_dests(pawns, occupied);
    let bits = bits_of(d);
    assert forall|j: int| 0 <= j < bits.len() implies capture_fields_resolved(
        board,
        double_move_spec(#[trigger] bits[j]),
    ) && promotion_disciplined(double_move_spec(bits[j])) by {
        lemma_bits_of_elems(d);
        let b = bits[j];
        crate::shared::lemma_absorb(b, shift_up(shift_up(pawns & RANK_TWO) & !occupied), !occupied);
        lemma_pawn_dest_ranks(b, pawns, 1, !occupied, 1);
        lemma_end_rank_bounds(b);
    }
}

/// Up-and-left captures resolve their piece and land between the third and
/// seventh ranks.
proof fn lemma_seg_capture_left(board: BoardBitmasks)
    requires
        aggregates_consistent(board),
    ensures
        forall|j: int|
            0 <= j < bits_of(
                capture_left_dests(board.white_pawns.mask, board.black_pieces.mask),
            ).len() ==> capture_fields_resolved(
                board,
                capture_left_move_spec(
                    board,
                    #[trigger] bits_of(
                        capture_left_dests(board.white_pawns.mask, board.black_pieces.mask),
                    )[j],
                ),
            ) && promotion_disciplined(
                capture_left_move_spec(
                    board,
                    bits_of(capture_left_dests(board.white_pawns.mask, board.black_pieces.mask))[j],
                ),
            ),
{
    let pawns = board.white_pawns.mask;
    let black = board.black_pieces.mask;
    let d = capture_left_dests(pawns, black);
    let bits = bits_of(d);
    assert forall|j: int| 0 <= j < bits.len() implies capture_fields_resolved(
        board,
        capture_left_move_spec(board, #[trigger] bits[j]),
    ) && promotion_disciplined(capture_left_move_spec(board, bits[j])) by {
        lemma_bits_of_elems(d);
        let b = bits[j];
        crate::shared::lemma_absorb(b, shift_up_left(pawns & VALID_SQUARES_NOT_IN_COLUMN_A), black);
        lemma_pawn_dest_ranks(b, pawns, 1, 1, 1);
        lemma_end_rank_bounds(b);
        lemma_mask_square_round_trip(b);
        lemma_capture_resolves(board, b);
    }
}

/// Up-and-right captures resolve their piece and land between the third and
/// seventh ranks.
proof fn lemma_seg_capture_right(board: BoardBitmasks)
    requires
        aggregates_consistent(board),
    ensures
        forall|j: int|
            0 <= j < bits_of(
                capture_right_dests(board.white_pawns.mask, board.black_pieces.mask),
            ).len() ==> capture_fields_resolved(
                board,
                capture_right_move_spec(
                    board,
                    #[trigger] bits_of(
                        capture_right_dests(board.white_pawns.mask, board.black_pieces.mask),
                    )[j],
                ),
            ) && promotion_disciplined(
                capture_right_move_spec(
                    board,
                    bits_of(
                        capture_right_dests(board.white_pawns.mask, board.black_pieces.mask),
                    )[j],
                ),
            ),
{
    let pawns = board.white_pawns.mask;
    let black = board.black_pieces.mask;
    let d = capture_right_dests(pawns, black);
    let bits = bits_of(d);
    assert forall|j: int| 0 <= j < bits.len() implies capture_fields_resolved(
        board,
        capture_right_move_spec(board, #[trigger] bits[j]),
    ) && promotion_disciplined(capture_right_move_spec(board, bits[j])) by {
        lemma_bits_of_elems(d);
        let b = bits[j];
        crate::shared::lemma_absorb(
            b,
            shift_up_right(pawns & VALID_SQUARES_NOT_IN_COLUMN_H),
            black,
        );
        lemma_pawn_dest_ranks(b, pawns, 1, 1, 1);
        lemma_end_rank_bounds(b);
        lemma_mask_square_round_trip(b);
        lemma_capture_resolves(board, b);
    }
}

/// En passant captures name the black pawn standing below the target and land
/// on the target square, off both edge ranks.
proof fn lemma_seg_en_passant(board: BoardBitmasks, t: CoordinatePosition)
    requires
        aggregates_consistent(board),
    ensures
        forall|j: int|
            0 <= j < bits_of(
                en_passant_origins(board.white_pawns.mask, board.black_pawns.mask, t.as_mask()),
            ).len() ==> capture_fields_resolved(
                board,
                en_passant_move_spec(
                    t.as_mask(),
                    #[trigger] bits_of(
                        en_passant_origins(
                            board.white_pawns.mask,
                            board.black_pawns.mask,
                            t.as_mask(),
                        ),
                    )[j],
                ),
            ) && promotion_disciplined(
                en_passant_move_spec(
                    t.as_mask(),
                    bits_of(
                        en_passant_origins(
                            board.white_pawns.mask,
                            board.black_pawns.mask,
                            t.as_mask(),
                        ),
                    )[j],
                ),
            ),
{
    let pawns = board.white_pawns.mask;
    let tm = t.as_mask();
    let origins = en_passant_origins(pawns, board.black_pawns.mask, tm);
    let bits = bits_of(origins);
    assert forall|j: int| 0 <= j < bits.len() implies capture_fields_resolved(
        board,
        en_passant_move_spec(tm, #[trigger] bits[j]),
    ) && promotion_disciplined(en_passant_move_spec(tm, bits[j])) by {
        lemma_square_mask_round_trip(t);
        lemma_bits_of_elems(origins);
        if origins == 0 {
            lemma_bits_of_zero();
            assert(false);
        }
        let q = bits[j];
        let sq = shift_down(tm);
        crate::shared::lemma_absorb(
            q,
            pawns,
            (shift_down_left(tm) | shift_down_right(tm)) & RANK_FIVE,
        );
        lemma_ep_target_below(tm, q);
        crate::shared::lemma_single_bit_shape(tm);
        crate::shared::lemma_single_bit_shape(q);
        crate::shared::lemma_single_bit_shape(sq);
        lemma_pawn_dest_ranks(1, 1, tm, 1, q);
        lemma_end_rank_bounds(tm);
        crate::shared::lemma_single_bit_facts(sq, board.black_pawns.mask);
        crate::shared::lemma_six_union(
            board.black_pawns.mask,
            board.black_knights.mask,
            board.black_bishops.mask,
            board.black_rooks.mask,
            board.black_queens.mask,
            board.black_kings.mask,
        );
        crate::chess_state::moves::chess_move::lemma_subset_trans(
            sq,
            board.black_pawns.mask,
            board.black_pieces.mask,
        );
        crate::shared::lemma_or_absorb(board.white_pieces.mask, board.black_pieces.mask);
        crate::chess_state::moves::chess_move::lemma_subset_trans(
            sq,
            board.black_pieces.mask,
            board.all_pieces.mask,
        );
        crate::chess_state::moves::chess_move::lemma_subset_trans(
            sq,
            board.black_pieces.mask,
            board.black_pieces.mask,
        );
        assert(sq & board.white_pieces.mask == 0) by {
            crate::shared::lemma_mask_basics();
        }
        assert(piece_at_spec(board, sq) == Some(PieceEnum::BlackPawn));
        lemma_mask_square_round_trip(sq);
    }
}

/// The quiet promotion destinations are single squares off the first rank.
proof fn lemma_promo_push_bits(board: BoardBitmasks)
    ensures
        forall|t: int|
            0 <= t < bits_of(
                promotion_push_dests(board.white_pawns.mask, board.all_pieces.mask),
            ).len() ==> is_single_bit(
                #[trigger] bits_of(
                    promotion_push_dests(board.white_pawns.mask, board.all_pieces.mask),
                )[t],
            ) && bits_of(promotion_push_dests(board.white_pawns.mask, board.all_pieces.mask))[t]
                & RANK_ONE == 0,
{
    let pawns = board.white_pawns.mask;
    let occupied = board.all_pieces.mask;
    let bits = bits_of(promotion_push_dests(pawns, occupied));
    assert forall|t: int| 0 <= t < bits.len() implies is_single_bit(#[trigger] bits[t]) && bits[t]
        & RANK_ONE == 0 by {
        lemma_bits_of_elems(promotion_push_dests(pawns, occupied));
        let b = bits[t];
        crate::shared::lemma_absorb(b, shift_up(pawns & RANK_SEVEN), !occupied);
        lemma_pawn_dest_ranks(b, pawns, 1, !occupied, 1);
    }
}

/// The up-and-left promotion captures are single black-held squares off the
/// first rank.
proof fn lemma_promo_left_bits(board: BoardBitmasks)
    ensures
        forall|t: int|
            0 <= t < bits_of(
                promotion_capture_left_dests(board.white_pawns.mask, board.black_pieces.mask),
            ).len() ==> is_single_bit(
                #[trigger] bits_of(
                    promotion_capture_left_dests(board.white_pawns.mask, board.black_pieces.mask),
                )[t],
            ) && bits_of(
                promotion_capture_left_dests(board.white_pawns.mask, board.black_pieces.mask),
            )[t] & RANK_ONE == 0 && bits_of(
                promotion_capture_left_dests(board.white_pawns.mask, board.black_pieces.mask),
            )[t] & board.black_pieces.mask == bits_of(
                promotion_capture_left_dests(board.white_pawns.mask, board.black_pieces.mask),
            )[t],
{
    let pawns = board.white_pawns.mask;
    let black = board.black_pieces.mask;
    let bits = bits_of(promotion_capture_left_dests(pawns, black));
    assert forall|t: int| 0 <= t < bits.len() implies is_single_bit(#[trigger] bits[t]) && bits[t]
        & RANK_ONE == 0 && bits[t] & black == bits[t] by {
        lemma_bits_of_elems(promotion_capture_left_dests(pawns, black));
        let b = bits[t];
        crate::shared::lemma_absorb(
            b,
            shift_up_left((pawns & RANK_SEVEN) & ROW_SEVEN_NOT_COLUMN_A),
            black,
        );
        lemma_pawn_dest_ranks(b, pawns, 1, 1, 1);
    }
}

/// The up-and-right promotion captures are single black-held squares off the
/// first rank.
proof fn lemma_promo_right_bits(board: BoardBitmasks)
    ensures
        forall|t: int|
            0 <= t < bits_of(
                promotion_capture_right_dests(board.white_pawns.mask, board.black_pieces.mask),
            ).len() ==> is_single_bit(
                #[trigger] bits_of(
                    promotion_capture_right_dests(board.white_pawns.mask, board.black_pieces.mask),
                )[t],
            ) && bits_of(
                promotion_capture_right_dests(board.white_pawns.mask, board.black_pieces.mask),
            )[t] & RANK_ONE == 0 && bits_of(
                promotion_capture_right_dests(board.white_pawns.mask, board.black_pieces.mask),
            )[t] & board.black_pieces.mask == bits_of(
                promotion_capture_right_dests(board.white_pawns.mask, board.black_pieces.mask),
            )[t],
{
    let pawns = board.white_pawns.mask;
    let black = board.black_pieces.mask;
    let bits = bits_of(promotion_capture_right_dests(pawns, black));
    assert forall|t: int| 0 <= t < bits.len() implies is_single_bit(#[trigger] bits[t]) && bits[t]
        & RANK_ONE == 0 && bits[t] & black == bits[t] by {
        lemma_bits_of_elems(promotion_capture_right_dests(pawns, black));
        let b = bits[t];
        crate::shared::lemma_absorb(
            b,
            shift_up_right((pawns & RANK_SEVEN) & ROW_SEVEN_NOT_COLUMN_H),
            black,
        );
        lemma_pawn_dest_ranks(b, pawns, 1, 1, 1);
    }
}

/// Every white pawn move is well shaped: its `takes` field, when present,
/// names the piece standing on the captured square, it never lands on the
/// first rank, and a landing on the eighth rank always promotes.
proof fn lemma_white_pawn_move_shape(board: BoardBitmasks, en_passant: Option<CoordinatePosition>)
    requires
        aggregates_consistent(board),
    ensures
        forall|j: int|
            0 <= j < white_pawn_moves_spec(board, en_passant).len() ==> capture_fields_resolved(
                board,
                #[trigger] white_pawn_moves_spec(board, en_passant)[j],
            ) && promotion_disciplined(white_pawn_moves_spec(board, en_passant)[j]),
{
    let pawns = board.white_pawns.mask;
    let occupied = board.all_pieces.mask;
    let black = board.black_pieces.mask;
    let pred = |mv: Move| capture_fields_resolved(board, mv) && promotion_disciplined(mv);

    let s1 = bits_of(single_step_dests(pawns, occupied)).map_values(|b: u64| simple_move_spec(b));
    let s2 = bits_of(double_step_dests(pawns, occupied)).map_values(|b: u64| double_move_spec(b));
    let s3 = bits_of(capture_left_dests(pawns, black)).map_values(
        |b: u64| capture_left_move_spec(board, b),
    );
    let s4 = bits_of(capture_right_dests(pawns, black)).map_values(
        |b: u64| capture_right_move_spec(board, b),
    );
    let s5 = match en_passant {
        None => Seq::<Move>::empty(),
        Some(t) => bits_of(en_passant_origins(pawns, board.black_pawns.mask, t.as_mask())).map_values(
            |q: u64| en_passant_move_spec(t.as_mask(), q),
        ),
    };
    let s6 = promotion_push_seq(bits_of(promotion_push_dests(pawns, occupied)));
    let s7 = promotion_left_seq(board, bits_of(promotion_capture_left_dests(pawns, black)));
    let s8 = promotion_right_seq(board, bits_of(promotion_capture_right_dests(pawns, black)));

    lemma_seg_single(board);
    lemma_seg_double(board);
    lemma_seg_capture_left(board);
    lemma_seg_capture_right(board);
    if let Some(t) = en_passant {
        lemma_seg_en_passant(board, t);
    }
    lemma_promo_push_bits(board);
    lemma_promotion_push_elems(board, bits_of(promotion_push_dests(pawns, occupied)));
    lemma_promo_left_bits(board);
    lemma_promotion_left_elems(board, bits_of(promotion_capture_left_dests(pawns, black)));
    lemma_promo_right_bits(board);
    lemma_promotion_right_elems(board, bits_of(promotion_capture_right_dests(pawns, black)));

    assert forall|j: int| 0 <= j < s1.len() implies pred(#[trigger] s1[j]) by {
        assert(s1[j] == simple_move_spec(bits_of(single_step_dests(pawns, occupied))[j]));
    }
    assert forall|j: int| 0 <= j < s2.len() implies pred(#[trigger] s2[j]) by {
        assert(s2[j] == double_move_spec(bits_of(double_step_dests(pawns, occupied))[j]));
    }
    assert forall|j: int| 0 <= j < s3.len() implies pred(#[trigger] s3[j]) by {
        assert(s3[j] == capture_left_move_spec(board, bits_of(capture_left_dests(pawns, black))[j]));
    }
    assert forall|j: int| 0 <= j < s4.len() implies pred(#[trigger] s4[j]) by {
        assert(s4[j] == capture_right_move_spec(
            board,
            bits_of(capture_right_dests(pawns, black))[j],
        ));
    }
    assert forall|j: int| 0 <= j < s5.len() implies pred(#[trigger] s5[j]) by {
        let t = en_passant->Some_0;
        assert(s5[j] == en_passant_move_spec(
            t.as_mask(),
            bits_of(en_passant_origins(pawns, board.black_pawns.mask, t.as_mask()))[j],
        ));
    }
    lemma_all_elements_concat(s1, s2, pred);
    lemma_all_elements_concat(s1 + s2, s3, pred);
    lemma_all_elements_concat(s1 + s2 + s3, s4, pred);
    lemma_all_elements_concat(s1 + s2 + s3 + s4, s5, pred);
    lemma_all_elements_concat(s1 + s2 + s3 + s4 + s5, s6, pred);
    lemma_all_elements_concat(s1 + s2 + s3 + s4 + s5 + s6, s7, pred);
    lemma_all_elements_concat(s1 + s2 + s3 + s4 + s5 + s6 + s7, s8, pred);
    assert(white_pawn_moves_spec(board, en_passant) == s1 + s2 + s3 + s4 + s5 + s6 + s7 + s8);
}

/// Every capture the white pawn generator emits names the piece that actually
/// stands on the captured square of the board it was generated from.
pub proof fn lemma_white_pawn_takes_resolve(
    board: BoardBitmasks,
    en_passant: Option<CoordinatePosition>,
)
    requires
        aggregates_consistent(board),
    ensures
        forall|j: int|
            0 <= j < white_pawn_moves_spec(board, en_passant).len() ==> capture_fields_resolved(
                board,
                #[trigger] white_pawn_moves_spec(board, en_passant)[j],
            ),
{
    lemma_white_pawn_move_shape(board, en_passant);
}

/// No white pawn move ever lands on the first rank, and every move landing on
/// the eighth rank carries a white promotion piece: a far-rank pawn move
/// without a promotion is never emitted.
pub proof fn lemma_white_pawn_promotion_discipline(
    board: BoardBitmasks,
    en_passant: Option<CoordinatePosition>,
)
    requires
        aggregates_consistent(board),
    ensures
        forall|j: int|
            0 <= j < white_pawn_moves_spec(board, en_passant).len() ==> promotion_disciplined(
                #[trigger] white_pawn_moves_spec(board, en_passant)[j],
            ),
{
    lemma_white_pawn_move_shape(board, en_passant);
}

} // verus!
