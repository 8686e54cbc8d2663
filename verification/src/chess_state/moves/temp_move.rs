use vstd::prelude::*;

use crate::bitscan::bits_of;
use crate::bitscan::lemma_bits_of_elems;
use crate::bitscan::lemma_bits_of_zero;
use crate::bitscan::next_single_bit;
use crate::chess_state::board_bitmask::BoardBitmasks;
use crate::chess_state::board_bitmask::aggregates_consistent;
use crate::chess_state::board_bitmask::is_white_class;
use crate::chess_state::chess_pieces::PieceEnum;
use crate::chess_state::coordinate_point::CoordinatePosition;
use crate::chess_state::coordinate_point::square_of;
use crate::chess_state::moves::chess_move::ChessDirection;
use crate::chess_state::moves::chess_move::iter_shift;
use crate::chess_state::moves::chess_move::opposite_direction;
use crate::chess_state::moves::chess_move::shift_move_spec;
use crate::chess_state::moves::shared::CheckType;
use crate::chess_state::moves::shared::Move;
use crate::chess_state::moves::shared::MoveError;
use crate::chess_state::moves::shared::lemma_capture_resolves;
use crate::chess_state::moves::shared::piece_at_of;
use crate::chess_state::moves::shared::piece_mask_for;
use crate::chess_state::moves::standard_move::StandardMove;
use crate::shared::is_single_bit;

verus! {

/// One ray step's worth of packed slider destinations: the squares reachable
/// at this distance, and which of them are captures.
pub struct TempMove {
    pub moves: u64,
    pub captures: u64,
}

/// The move unpacked from destination square `b` of the frame at ray distance
/// `k` (zero-based): its origin square is recovered by `undo`, and it is a
/// capture of the piece standing on `b` exactly when the frame says so.
pub open spec fn unpacked_move_spec(
    board: BoardBitmasks,
    frame: TempMove,
    piece_type: PieceEnum,
    undo: spec_fn(u64, int) -> u64,
    k: int,
    b: u64,
) -> Move {
    Move::StandardMove(
        StandardMove {
            start_position: square_of(undo(b, k)),
            end_position: square_of(b),
            piece: piece_type,
            en_passant_target: None,
            promotion: None,
            takes: if b & frame.captures != 0 {
                Some((square_of(b), piece_at_of(board, b)))
            } else {
                Option::<(CoordinatePosition, PieceEnum)>::None
            },
            check: CheckType::NoCheck,
        },
    )
}

/// The moves of one frame, in ascending destination order.
pub open spec fn frame_moves_seq(
    board: BoardBitmasks,
    frame: TempMove,
    piece_type: PieceEnum,
    undo: spec_fn(u64, int) -> u64,
    k: int,
) -> Seq<Move> {
    bits_of(frame.moves).map_values(
        |b: u64| unpacked_move_spec(board, frame, piece_type, undo, k, b),
    )
}

/// The moves of the frames at index `k` and beyond, frame-major.
pub open spec fn unpacked_moves_spec(
    board: BoardBitmasks,
    packed: Seq<TempMove>,
    piece_type: PieceEnum,
    undo: spec_fn(u64, int) -> u64,
    k: int,
) -> Seq<Move>
    decreases packed.len() - k,
{
    if k < 0 || k >= packed.len() {
        Seq::empty()
    } else {
        frame_moves_seq(board, packed[k], piece_type, undo, k) + unpacked_moves_spec(
            board,
            packed,
            piece_type,
            undo,
            k + 1,
        )
    }
}

/// The mask of the side that `piece_type` belongs to.
pub open spec fn own_side_mask(board: BoardBitmasks, piece_type: PieceEnum) -> u64 {
    if is_white_class(piece_type) {
        board.white_pieces.mask
    } else {
        board.black_pieces.mask
    }
}

/// The mask of the side that `piece_type` can capture.
pub open spec fn enemy_side_mask(board: BoardBitmasks, piece_type: PieceEnum) -> u64 {
    if is_white_class(piece_type) {
        board.black_pieces.mask
    } else {
        board.white_pieces.mask
    }
}

/// The squares that the sliders of class `piece_type` reach at ray distance
/// `k + 1` in direction `d`: the previous frame's non-capture squares, moved
/// one further step, never onto the mover's own pieces.
pub open spec fn slider_frame_moves(
    board: BoardBitmasks,
    piece_type: PieceEnum,
    d: ChessDirection,
    k: nat,
) -> u64
    decreases k,
{
    if k == 0 {
        shift_move_spec(piece_mask_for(board, piece_type), d) & !own_side_mask(board, piece_type)
    } else {
        let prev = slider_frame_moves(board, piece_type, d, (k - 1) as nat);
        let prev_captures = prev & enemy_side_mask(board, piece_type);
        shift_move_spec(prev & !prev_captures, d) & !own_side_mask(board, piece_type)
    }
}

/// The frame at ray distance `k + 1`: its squares and which are captures.
pub open spec fn slider_frame(
    board: BoardBitmasks,
    piece_type: PieceEnum,
    d: ChessDirection,
    k: nat,
) -> TempMove {
    let m = slider_frame_moves(board, piece_type, d, k);
    TempMove { moves: m, captures: m & enemy_side_mask(board, piece_type) }
}

/// The origin recovery of a ray move: a destination at distance `k + 1` walks
/// `k + 1` opposite steps back.
pub open spec fn slider_undo(d: ChessDirection) -> spec_fn(u64, int) -> u64 {
    |b: u64, k: int| iter_shift(b, opposite_direction(d), (k + 1) as nat)
}

/// All moves of the sliders of class `piece_type` along the ray `d`: the
/// frames at distances one to eight, frame-major, destinations ascending (a
/// board is eight squares wide, so every frame beyond the eighth is empty).
pub open spec fn slider_ray_moves(
    board: BoardBitmasks,
    piece_type: PieceEnum,
    d: ChessDirection,
) -> Seq<Move> {
    slider_frames_output(board, piece_type, d, 0)
}

/// The moves of the slider frames at distances `k + 1` to eight.
pub open spec fn slider_frames_output(
    board: BoardBitmasks,
    piece_type: PieceEnum,
    d: ChessDirection,
    k: nat,
) -> Seq<Move>
    decreases 8 - k,
{
    if k >= 8 {
        Seq::empty()
    } else {
        frame_moves_seq(
            board,
            slider_frame(board, piece_type, d, k),
            piece_type,
            slider_undo(d),
            k as int,
        ) + slider_frames_output(board, piece_type, d, (k + 1) as nat)
    }
}

/// Once a slider frame is empty, every later frame is empty as well.
pub proof fn lemma_slider_frames_die(
    board: BoardBitmasks,
    piece_type: PieceEnum,
    d: ChessDirection,
    k: nat,
    j: nat,
)
    requires
        slider_frame_moves(board, piece_type, d, k) == 0,
        k <= j,
    ensures
        slider_frame_moves(board, piece_type, d, j) == 0,
    decreases j - k,
{
    if j > k {
        lemma_slider_frames_die(board, piece_type, d, k, (j - 1) as nat);
        let prev = slider_frame_moves(board, piece_type, d, (j - 1) as nat);
        crate::shared::lemma_meet(0, enemy_side_mask(board, piece_type));
        crate::shared::lemma_meet(0, !(0u64 & enemy_side_mask(board, piece_type)));
        assert(prev & !(prev & enemy_side_mask(board, piece_type)) == 0);
        crate::chess_state::moves::chess_move::lemma_shift_zero(d);
        crate::shared::lemma_meet(0, !own_side_mask(board, piece_type));
    }
}

/// Takes TempMoves which use bitmasks of multiple successive moves, and turns
/// each set destination bit into a move record: `undo_moves` recovers the
/// origin square of a destination reached at a given ray distance, and a
/// destination marked as a capture carries the piece standing on it.
pub fn unpack_moves<T: Fn(u64, usize) -> u64>(
    packed_moves: Vec<TempMove>,
    undo_moves: T,
    piece_type: PieceEnum,
    game_board: &BoardBitmasks,
    Ghost(undo_spec): Ghost<spec_fn(u64, int) -> u64>,
) -> (r: Result<Vec<Move>, MoveError>)
    requires
        aggregates_consistent(*game_board),
        forall|b: u64, k: usize| call_requires(undo_moves, (b, k)),
        forall|b: u64, k: usize, ret: u64|
            call_ensures(undo_moves, (b, k), ret) ==> ret == undo_spec(b, k as int),
        forall|k: int|
            0 <= k < packed_moves@.len() ==> ((#[trigger] packed_moves@[k]).captures
                & packed_moves@[k].moves == packed_moves@[k].captures),
        forall|k: int|
            0 <= k < packed_moves@.len() ==> ((#[trigger] packed_moves@[k]).captures
                & game_board.black_pieces.mask == packed_moves@[k].captures || packed_moves@[k].captures
                & game_board.white_pieces.mask == packed_moves@[k].captures),
        forall|k: int, b: u64|
            #![trigger undo_spec(b, k)]
            0 <= k < packed_moves@.len() && is_single_bit(b) && b & packed_moves@[k].moves == b
                ==> is_single_bit(undo_spec(b, k)),
    ensures
        r matches Ok(out) && out@ == unpacked_moves_spec(
            *game_board,
            packed_moves@,
            piece_type,
            undo_spec,
            0,
        ),
{
    let ghost total = unpacked_moves_spec(*game_board, packed_moves@, piece_type, undo_spec, 0);
    let mut output: Vec<Move> = Vec::with_capacity(32);
    let mut index: usize = 0;
    proof {
        assert(output@ =~= Seq::<Move>::empty());
    }
    while index < packed_moves.len()
        invariant
            aggregates_consistent(*game_board),
            forall|b: u64, k: usize| call_requires(undo_moves, (b, k)),
            forall|b: u64, k: usize, ret: u64|
                call_ensures(undo_moves, (b, k), ret) ==> ret == undo_spec(b, k as int),
            forall|k: int|
                0 <= k < packed_moves@.len() ==> ((#[trigger] packed_moves@[k]).captures
                    & packed_moves@[k].moves == packed_moves@[k].captures),
            forall|k: int|
                0 <= k < packed_moves@.len() ==> ((#[trigger] packed_moves@[k]).captures
                    & game_board.black_pieces.mask == packed_moves@[k].captures
                    || packed_moves@[k].captures & game_board.white_pieces.mask
                    == packed_moves@[k].captures),
            forall|k: int, b: u64|
                #![trigger undo_spec(b, k)]
                0 <= k < packed_moves@.len() && is_single_bit(b) && b & packed_moves@[k].moves == b
                    ==> is_single_bit(undo_spec(b, k)),
            index <= packed_moves@.len(),
            total == unpacked_moves_spec(
                *game_board,
                packed_moves@,
                piece_type,
                undo_spec,
                0,
            ),
            total == output@ + unpacked_moves_spec(
                *game_board,
                packed_moves@,
                piece_type,
                undo_spec,
                index as int,
            ),
        decreases packed_moves@.len() - index,
    {
        let ghost frame = packed_moves@[index as int];
        let ghost frame_seq = frame_moves_seq(
            *game_board,
            frame,
            piece_type,
            undo_spec,
            index as int,
        );
        let ghost prefix = output@;
        let ghost mut done: int = 0;
        let packed_move_moves = packed_moves[index].moves;
        let packed_move_captures = packed_moves[index].captures;
        // take a copy of the move u64 to deconstruct
        let mut move_copy = packed_move_moves;
        proof {
            lemma_bits_of_elems(frame.moves);
            crate::shared::lemma_meet(move_copy, move_copy);
            assert(bits_of(frame.moves).take(0) =~= Seq::<u64>::empty());
            assert(output@ =~= prefix + bits_of(frame.moves).take(0).map_values(
                |b: u64| unpacked_move_spec(
                    *game_board,
                    frame,
                    piece_type,
                    undo_spec,
                    index as int,
                    b,
                ),
            ));
        }
        while move_copy > 0
            invariant
                aggregates_consistent(*game_board),
                forall|b: u64, k: usize| call_requires(undo_moves, (b, k)),
                forall|b: u64, k: usize, ret: u64|
                    call_ensures(undo_moves, (b, k), ret) ==> ret == undo_spec(b, k as int),
                index < packed_moves@.len(),
                frame == packed_moves@[index as int],
                packed_move_moves == frame.moves,
                packed_move_captures == frame.captures,
                frame.captures & frame.moves == frame.captures,
                frame.captures & game_board.black_pieces.mask == frame.captures || frame.captures
                    & game_board.white_pieces.mask == frame.captures,
                forall|b: u64|
                    #![trigger undo_spec(b, index as int)]
                    is_single_bit(b) && b & frame.moves == b ==> is_single_bit(
                        undo_spec(b, index as int),
                    ),
                0 <= done <= bits_of(frame.moves).len(),
                move_copy & frame.moves == move_copy,
                bits_of(frame.moves) == bits_of(frame.moves).take(done) + bits_of(move_copy),
                output@ == prefix + bits_of(frame.moves).take(done).map_values(
                    |b: u64| unpacked_move_spec(
                        *game_board,
                        frame,
                        piece_type,
                        undo_spec,
                        index as int,
                        b,
                    ),
                ),
            decreases move_copy,
        {
            let ghost n = done;
            let next_move_bitmask: u64 = next_single_bit(move_copy);
            proof {
                lemma_bits_of_elems(frame.moves);
                assert(bits_of(frame.moves)[n] == next_move_bitmask);
                assert(is_single_bit(next_move_bitmask) && next_move_bitmask & frame.moves
                    == next_move_bitmask);
            }
            let next_move_coord = match CoordinatePosition::from_bitmask(next_move_bitmask) {
                Ok(c) => c,
                Err(e) => {
                    proof {
                        assert(false);
                    }
                    return Err(MoveError::CoordinateError(e));
                },
            };
            proof {
                crate::chess_state::coordinate_point::lemma_mask_square_round_trip(
                    next_move_bitmask,
                );
            }
            let undone = undo_moves(next_move_bitmask, index);
            proof {
                assert(undone == undo_spec(next_move_bitmask, index as int));
                assert(is_single_bit(undone));
                crate::chess_state::coordinate_point::lemma_mask_square_round_trip(undone);
            }
            let starting_pos_coord = match CoordinatePosition::from_bitmask(undone) {
                Ok(c) => c,
                Err(e) => {
                    proof {
                        assert(false);
                    }
                    return Err(MoveError::CoordinateError(e));
                },
            };
            let takes = if next_move_bitmask & packed_move_captures > 0 {
                proof {
                    crate::shared::lemma_single_bit_facts(next_move_bitmask, frame.captures);
                    crate::chess_state::moves::chess_move::lemma_subset_trans(
                        next_move_bitmask,
                        frame.captures,
                        game_board.black_pieces.mask,
                    );
                    crate::chess_state::moves::chess_move::lemma_subset_trans(
                        next_move_bitmask,
                        frame.captures,
                        game_board.white_pieces.mask,
                    );
                    lemma_capture_resolves(*game_board, next_move_bitmask);
                }
                Some((next_move_coord, game_board.get_piece_type_for_capture(next_move_coord)?))
            } else {
                None
            };
            let next_move = Move::StandardMove(
                StandardMove {
                    start_position: starting_pos_coord,
                    end_position: next_move_coord,
                    piece: piece_type,
                    en_passant_target: None,
                    promotion: None,
                    takes,
                    check: CheckType::NoCheck,
                },
            );
            output.push(next_move);
            proof {
                done = done + 1;
                assert(bits_of(frame.moves).take(n + 1) =~= bits_of(frame.moves).take(n)
                    + seq![next_move_bitmask]);
                assert(next_move == unpacked_move_spec(
                    *game_board,
                    frame,
                    piece_type,
                    undo_spec,
                    index as int,
                    next_move_bitmask,
                ));
                assert(output@ =~= prefix + bits_of(frame.moves).take(done).map_values(
                    |b: u64| unpacked_move_spec(
                        *game_board,
                        frame,
                        piece_type,
                        undo_spec,
                        index as int,
                        b,
                    ),
                ));
                assert((move_copy & !next_move_bitmask) & packed_move_moves == (move_copy
                    & !next_move_bitmask)) by (bit_vector)
                    requires
                        move_copy & packed_move_moves == move_copy,
                ;
                assert(bits_of(frame.moves) =~= bits_of(frame.moves).take(done) + bits_of(
                    move_copy & !next_move_bitmask,
                ));
            }
            move_copy = move_copy & !next_move_bitmask;
        }
        proof {
            lemma_bits_of_zero();
            assert(bits_of(frame.moves) =~= bits_of(frame.moves).take(done));
            assert(output@ =~= prefix + frame_seq);
            assert(unpacked_moves_spec(
                *game_board,
                packed_moves@,
                piece_type,
                undo_spec,
                index as int,
            ) == frame_seq + unpacked_moves_spec(
                *game_board,
                packed_moves@,
                piece_type,
                undo_spec,
                index as int + 1,
            ));
            assert(total =~= output@ + unpacked_moves_spec(
                *game_board,
                packed_moves@,
                piece_type,
                undo_spec,
                index as int + 1,
            ));
        }
        index = index + 1;
    }
    proof {
        assert(unpacked_moves_spec(
            *game_board,
            packed_moves@,
            piece_type,
            undo_spec,
            index as int,
        ) =~= Seq::<Move>::empty());
        assert(output@ =~= total);
    }
    Ok(output)
}


/// A single destination square of the frame at ray distance `k + 1` has a
/// single origin square `k + 1` opposite steps back.
pub proof fn lemma_slider_origin(
    board: BoardBitmasks,
    piece_type: PieceEnum,
    d: ChessDirection,
    k: nat,
    b: u64,
)
    requires
        is_single_bit(b),
        b & slider_frame_moves(board, piece_type, d, k) == b,
    ensures
        is_single_bit(iter_shift(b, opposite_direction(d), (k + 1) as nat)),
    decreases k,
{
    let opp = opposite_direction(d);
    if k == 0 {
        let start = piece_mask_for(board, piece_type);
        crate::shared::lemma_absorb(
            b,
            shift_move_spec(start, d),
            !own_side_mask(board, piece_type),
        );
        crate::chess_state::moves::chess_move::lemma_shift_origin(b, start, d);
        assert(iter_shift(b, opp, 0) == b);
        assert(iter_shift(b, opp, 1) == shift_move_spec(iter_shift(b, opp, 0), opp));
    } else {
        let prev = slider_frame_moves(board, piece_type, d, (k - 1) as nat);
        let prev_quiet = prev & !(prev & enemy_side_mask(board, piece_type));
        crate::shared::lemma_absorb(
            b,
            shift_move_spec(prev_quiet, d),
            !own_side_mask(board, piece_type),
        );
        crate::chess_state::moves::chess_move::lemma_shift_origin(b, prev_quiet, d);
        let b1 = shift_move_spec(b, opp);
        crate::shared::lemma_meet(prev, !(prev & enemy_side_mask(board, piece_type)));
        crate::chess_state::moves::chess_move::lemma_subset_trans(b1, prev_quiet, prev);
        lemma_slider_origin(board, piece_type, d, (k - 1) as nat, b1);
        crate::chess_state::moves::chess_move::lemma_iter_shift_front(b, opp, k);
        assert(iter_shift(b1, opp, k) == iter_shift(b, opp, (k + 1) as nat));
    }
}

/// A packed frame vector whose entries are the slider frames, and whose next
/// frame would be empty, unpacks to exactly the ray's move sequence.
pub proof fn lemma_packed_frames_output(
    board: BoardBitmasks,
    piece_type: PieceEnum,
    d: ChessDirection,
    packed: Seq<TempMove>,
    k: int,
)
    requires
        0 <= k <= 8,
        packed.len() <= 8,
        forall|j: int|
            0 <= j < packed.len() ==> #[trigger] packed[j] == slider_frame(
                board,
                piece_type,
                d,
                j as nat,
            ),
        packed.len() < 8 ==> slider_frame_moves(board, piece_type, d, packed.len() as nat) == 0,
    ensures
        unpacked_moves_spec(board, packed, piece_type, slider_undo(d), k) == slider_frames_output(
            board,
            piece_type,
            d,
            k as nat,
        ),
    decreases 8 - k,
{
    if k < packed.len() {
        lemma_packed_frames_output(board, piece_type, d, packed, k + 1);
        assert(packed[k] == slider_frame(board, piece_type, d, k as nat));
    } else if k < 8 {
        lemma_packed_frames_output(board, piece_type, d, packed, k + 1);
        lemma_slider_frames_die(board, piece_type, d, packed.len() as nat, k as nat);
        lemma_bits_of_zero();
        assert(bits_of(slider_frame(board, piece_type, d, k as nat).moves) =~= Seq::<u64>::empty());
        assert(frame_moves_seq(
            board,
            slider_frame(board, piece_type, d, k as nat),
            piece_type,
            slider_undo(d),
            k,
        ) =~= Seq::<Move>::empty());
        assert(unpacked_moves_spec(board, packed, piece_type, slider_undo(d), k) =~= Seq::<
            Move,
        >::empty());
        assert(slider_frames_output(board, piece_type, d, k as nat) =~= slider_frames_output(
            board,
            piece_type,
            d,
            (k + 1) as nat,
        ));
    } else {
        assert(unpacked_moves_spec(board, packed, piece_type, slider_undo(d), k) =~= Seq::<
            Move,
        >::empty());
    }
}

} // verus!
