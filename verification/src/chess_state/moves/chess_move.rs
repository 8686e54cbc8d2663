use vstd::prelude::*;

verus! {

pub const FILE_A: u64 = 0x8080_8080_8080_8080;

pub const FILE_B: u64 = 0x4040_4040_4040_4040;

pub const FILE_G: u64 = 0x0202_0202_0202_0202;

pub const FILE_H: u64 = 0x0101_0101_0101_0101;

pub const RANK_ONE: u64 = 0x0000_0000_0000_00FF;

pub const RANK_TWO: u64 = 0x0000_0000_0000_FF00;

pub const RANK_FIVE: u64 = 0x0000_00FF_0000_0000;

pub const RANK_SEVEN: u64 = 0x00FF_0000_0000_0000;

pub const RANK_EIGHT: u64 = 0xFF00_0000_0000_0000;


/// One of the sixteen directions a piece can step in: the eight king steps and
/// the eight knight moves, the latter named by clock position.
#[derive(Debug, Clone, Copy)]
pub enum ChessDirection {
    // single step king moves
    Up,
    UpRight,
    Right,
    DownRight,
    Down,
    DownLeft,
    Left,
    UpLeft,
    // knight moves based on clock
    // up, up, right
    KnightOne,
    // up, right, right
    KnightTwo,
    // down, right, right
    KnightFour,
    // down, down, right
    KnightFive,
    // down, down, left
    KnightSeven,
    // down, left, left
    KnightEight,
    // up, left, left
    KnightTen,
    // up, up, left
    KnightEleven,
}

/// The direction that undoes `d`: each step is reversed.
pub open spec fn opposite_direction(d: ChessDirection) -> ChessDirection {
    match d {
        ChessDirection::Up => ChessDirection::Down,
        ChessDirection::UpRight => ChessDirection::DownLeft,
        ChessDirection::Right => ChessDirection::Left,
        ChessDirection::DownRight => ChessDirection::UpLeft,
        ChessDirection::Down => ChessDirection::Up,
        ChessDirection::DownLeft => ChessDirection::UpRight,
        ChessDirection::Left => ChessDirection::Right,
        ChessDirection::UpLeft => ChessDirection::DownRight,
        ChessDirection::KnightOne => ChessDirection::KnightSeven,
        ChessDirection::KnightTwo => ChessDirection::KnightEight,
        ChessDirection::KnightFour => ChessDirection::KnightTen,
        ChessDirection::KnightFive => ChessDirection::KnightEleven,
        ChessDirection::KnightSeven => ChessDirection::KnightOne,
        ChessDirection::KnightEight => ChessDirection::KnightTwo,
        ChessDirection::KnightTen => ChessDirection::KnightFour,
        ChessDirection::KnightEleven => ChessDirection::KnightFive,
    }
}

/// The squares from which a step in `d` stays on the board.
pub open spec fn valid_space_spec(d: ChessDirection) -> u64 {
    match d {
        ChessDirection::Up => !RANK_EIGHT,
        ChessDirection::UpRight => !(RANK_EIGHT | FILE_H),
        ChessDirection::Right => !FILE_H,
        ChessDirection::DownRight => !(RANK_ONE | FILE_H),
        ChessDirection::Down => !RANK_ONE,
        ChessDirection::DownLeft => !(RANK_ONE | FILE_A),
        ChessDirection::Left => !FILE_A,
        ChessDirection::UpLeft => !(FILE_A | RANK_EIGHT),
        ChessDirection::KnightOne => !(RANK_SEVEN | RANK_EIGHT | FILE_H),
        ChessDirection::KnightTwo => !(RANK_EIGHT | FILE_G | FILE_H),
        ChessDirection::KnightFour => !(RANK_ONE | FILE_G | FILE_H),
        ChessDirection::KnightFive => !(RANK_ONE | RANK_TWO | FILE_H),
        ChessDirection::KnightSeven => !(RANK_ONE | RANK_TWO | FILE_A),
        ChessDirection::KnightEight => !(RANK_ONE | FILE_A | FILE_B),
        ChessDirection::KnightTen => !(RANK_EIGHT | FILE_A | FILE_B),
        ChessDirection::KnightEleven => !(RANK_SEVEN | RANK_EIGHT | FILE_A),
    }
}

/// Every square of `m`, moved one rank up; squares that would leave the
/// board are dropped first.
pub open spec fn shift_up(m: u64) -> u64 {
    (m & !RANK_EIGHT) << 8
}

/// Every square of `m`, moved one file toward H; squares that would leave the
/// board are dropped first.
pub open spec fn shift_right(m: u64) -> u64 {
    (m & !FILE_H) >> 1
}

/// Every square of `m`, moved one rank down; squares that would leave the
/// board are dropped first.
pub open spec fn shift_down(m: u64) -> u64 {
    (m & !RANK_ONE) >> 8
}

/// Every square of `m`, moved one file toward A; squares that would leave the
/// board are dropped first.
pub open spec fn shift_left(m: u64) -> u64 {
    (m & !FILE_A) << 1
}

/// Every square of `m`, moved one step in the `UpRight` direction.
pub open spec fn shift_up_right(m: u64) -> u64 {
    shift_right(shift_up(m & (!(RANK_EIGHT | FILE_H))))
}

/// Every square of `m`, moved one step in the `DownRight` direction.
pub open spec fn shift_down_right(m: u64) -> u64 {
    shift_right(shift_down(m & (!(RANK_ONE | FILE_H))))
}

/// Every square of `m`, moved one step in the `DownLeft` direction.
pub open spec fn shift_down_left(m: u64) -> u64 {
    shift_left(shift_down(m & (!(RANK_ONE | FILE_A))))
}

/// Every square of `m`, moved one step in the `UpLeft` direction.
pub open spec fn shift_up_left(m: u64) -> u64 {
    shift_left(shift_up(m & (!(FILE_A | RANK_EIGHT))))
}

/// Every square of `m`, moved one step in the `KnightOne` direction.
pub open spec fn shift_knight_one(m: u64) -> u64 {
    shift_right(shift_up(shift_up(m & (!(RANK_SEVEN | RANK_EIGHT | FILE_H)))))
}

/// Every square of `m`, moved one step in the `KnightTwo` direction.
pub open spec fn shift_knight_two(m: u64) -> u64 {
    shift_right(shift_right(shift_up(m & (!(RANK_EIGHT | FILE_G | FILE_H)))))
}

/// Every square of `m`, moved one step in the `KnightFour` direction.
pub open spec fn shift_knight_four(m: u64) -> u64 {
    shift_right(shift_right(shift_down(m & (!(RANK_ONE | FILE_G | FILE_H)))))
}

/// Every square of `m`, moved one step in the `KnightFive` direction.
pub open spec fn shift_knight_five(m: u64) -> u64 {
    shift_right(shift_down(shift_down(m & (!(RANK_ONE | RANK_TWO | FILE_H)))))
}

/// Every square of `m`, moved one step in the `KnightSeven` direction.
pub open spec fn shift_knight_seven(m: u64) -> u64 {
    shift_left(shift_down(shift_down(m & (!(RANK_ONE | RANK_TWO | FILE_A)))))
}

/// Every square of `m`, moved one step in the `KnightEight` direction.
pub open spec fn shift_knight_eight(m: u64) -> u64 {
    shift_left(shift_left(shift_down(m & (!(RANK_ONE | FILE_A | FILE_B)))))
}

/// Every square of `m`, moved one step in the `KnightTen` direction.
pub open spec fn shift_knight_ten(m: u64) -> u64 {
    shift_left(shift_left(shift_up(m & (!(RANK_EIGHT | FILE_A | FILE_B)))))
}

/// Every square of `m`, moved one step in the `KnightEleven` direction.
pub open spec fn shift_knight_eleven(m: u64) -> u64 {
    shift_left(shift_up(shift_up(m & (!(RANK_SEVEN | RANK_EIGHT | FILE_A)))))
}

/// The edge-aware shift of `m` one step in direction `d`: squares whose step
/// would wrap across a file edge or leave the board are dropped first.
pub open spec fn shift_move_spec(m: u64, d: ChessDirection) -> u64 {
    match d {
        ChessDirection::Up => shift_up(m),
        ChessDirection::UpRight => shift_up_right(m),
        ChessDirection::Right => shift_right(m),
        ChessDirection::DownRight => shift_down_right(m),
        ChessDirection::Down => shift_down(m),
        ChessDirection::DownLeft => shift_down_left(m),
        ChessDirection::Left => shift_left(m),
        ChessDirection::UpLeft => shift_up_left(m),
        ChessDirection::KnightOne => shift_knight_one(m),
        ChessDirection::KnightTwo => shift_knight_two(m),
        ChessDirection::KnightFour => shift_knight_four(m),
        ChessDirection::KnightFive => shift_knight_five(m),
        ChessDirection::KnightSeven => shift_knight_seven(m),
        ChessDirection::KnightEight => shift_knight_eight(m),
        ChessDirection::KnightTen => shift_knight_ten(m),
        ChessDirection::KnightEleven => shift_knight_eleven(m),
    }
}

/// How many further shifts a composite direction unfolds into.
pub open spec fn direction_rank(d: ChessDirection) -> int {
    match d {
        ChessDirection::Up | ChessDirection::Right | ChessDirection::Down
            | ChessDirection::Left => 0,
        _ => 1,
    }
}

/// Edge-aware directional movement of a whole bitmask.
pub trait ChessShiftMove: Sized {
    fn shift_move(self, direction: ChessDirection) -> Self;
}

impl ChessShiftMove for u64 {
    /// Moves every square of the mask one step in `direction`, dropping the
    /// squares whose step would leave the board.
    fn shift_move(self, direction: ChessDirection) -> (r: u64)
        ensures
            r == shift_move_spec(self, direction),
        decreases direction_rank(direction),
    {
        // to help with safety, first filter out any pieces that cannot make that move
        let valid_pieces = self & crate::chess_state::moves::shared::get_valid_space(direction);
        match direction {
            ChessDirection::Up => valid_pieces << 8,
            ChessDirection::Right => valid_pieces >> 1,
            ChessDirection::Down => valid_pieces >> 8,
            ChessDirection::Left => valid_pieces << 1,
            ChessDirection::UpRight => valid_pieces.shift_move(ChessDirection::Up).shift_move(ChessDirection::Right),
            ChessDirection::DownRight => valid_pieces.shift_move(ChessDirection::Down).shift_move(ChessDirection::Right),
            ChessDirection::DownLeft => valid_pieces.shift_move(ChessDirection::Down).shift_move(ChessDirection::Left),
            ChessDirection::UpLeft => valid_pieces.shift_move(ChessDirection::Up).shift_move(ChessDirection::Left),
            ChessDirection::KnightOne => valid_pieces.shift_move(ChessDirection::Up).shift_move(ChessDirection::Up).shift_move(ChessDirection::Right),
            ChessDirection::KnightTwo => valid_pieces.shift_move(ChessDirection::Up).shift_move(ChessDirection::Right).shift_move(ChessDirection::Right),
            ChessDirection::KnightFour => valid_pieces.shift_move(ChessDirection::Down).shift_move(ChessDirection::Right).shift_move(ChessDirection::Right),
            ChessDirection::KnightFive => valid_pieces.shift_move(ChessDirection::Down).shift_move(ChessDirection::Down).shift_move(ChessDirection::Right),
            ChessDirection::KnightSeven => valid_pieces.shift_move(ChessDirection::Down).shift_move(ChessDirection::Down).shift_move(ChessDirection::Left),
            ChessDirection::KnightEight => valid_pieces.shift_move(ChessDirection::Down).shift_move(ChessDirection::Left).shift_move(ChessDirection::Left),
            ChessDirection::KnightTen => valid_pieces.shift_move(ChessDirection::Up).shift_move(ChessDirection::Left).shift_move(ChessDirection::Left),
            ChessDirection::KnightEleven => valid_pieces.shift_move(ChessDirection::Up).shift_move(ChessDirection::Up).shift_move(ChessDirection::Left),
        }
    }
}

/// Shifting a mask one step in any direction and then one step back yields a
/// subset of the squares it started from.
pub proof fn lemma_shift_move_undo(m: u64, d: ChessDirection)
    ensures
        shift_move_spec(shift_move_spec(m, d), opposite_direction(d)) & m == shift_move_spec(
            shift_move_spec(m, d),
            opposite_direction(d),
        ),
{
    assert(shift_down(shift_up(m)) & m == shift_down(shift_up(m))
        && shift_down_left(shift_up_right(m)) & m == shift_down_left(shift_up_right(m))
        && shift_left(shift_right(m)) & m == shift_left(shift_right(m))
        && shift_up_left(shift_down_right(m)) & m == shift_up_left(shift_down_right(m))
        && shift_up(shift_down(m)) & m == shift_up(shift_down(m))
        && shift_up_right(shift_down_left(m)) & m == shift_up_right(shift_down_left(m))
        && shift_right(shift_left(m)) & m == shift_right(shift_left(m))
        && shift_down_right(shift_up_left(m)) & m == shift_down_right(shift_up_left(m))
        && shift_knight_seven(shift_knight_one(m)) & m == shift_knight_seven(shift_knight_one(m))
        && shift_knight_eight(shift_knight_two(m)) & m == shift_knight_eight(shift_knight_two(m))
        && shift_knight_ten(shift_knight_four(m)) & m == shift_knight_ten(shift_knight_four(m))
        && shift_knight_eleven(shift_knight_five(m)) & m == shift_knight_eleven(shift_knight_five(m))
        && shift_knight_one(shift_knight_seven(m)) & m == shift_knight_one(shift_knight_seven(m))
        && shift_knight_two(shift_knight_eight(m)) & m == shift_knight_two(shift_knight_eight(m))
        && shift_knight_four(shift_knight_ten(m)) & m == shift_knight_four(shift_knight_ten(m))
        && shift_knight_five(shift_knight_eleven(m)) & m == shift_knight_five(shift_knight_eleven(m))) by (bit_vector);
}

/// A shift never invents squares: the result holds at most as many squares
/// as the mask it started from (each one arises from a distinct origin
/// square).
pub proof fn lemma_shift_move_count(m: u64, d: ChessDirection)
    ensures
        crate::bitscan::bits_of(shift_move_spec(m, d)).len() <= crate::bitscan::bits_of(m).len(),
    decreases m,
{
    crate::shared::lemma_mask_basics();
    if m == 0 {
        assert(shift_up(0) == 0
        && shift_up_right(0) == 0
        && shift_right(0) == 0
        && shift_down_right(0) == 0
        && shift_down(0) == 0
        && shift_down_left(0) == 0
        && shift_left(0) == 0
        && shift_up_left(0) == 0
        && shift_knight_one(0) == 0
        && shift_knight_two(0) == 0
        && shift_knight_four(0) == 0
        && shift_knight_five(0) == 0
        && shift_knight_seven(0) == 0
        && shift_knight_eight(0) == 0
        && shift_knight_ten(0) == 0
        && shift_knight_eleven(0) == 0) by (bit_vector);
        crate::bitscan::lemma_bits_of_zero();
    } else {
        crate::bitscan::lemma_bits_pop(m);
        let b = crate::bitscan::lowest_bit(m);
        let c = m & !b;
        lemma_shift_move_count(c, d);
        lemma_shift_split(b, c, d);
        assert(b | c == m && b & c == 0);
        assert(shift_move_spec(m, d) == shift_move_spec(b, d) | shift_move_spec(c, d));
        crate::bitscan::lemma_bits_of_disjoint_union(shift_move_spec(b, d), shift_move_spec(c, d));
        if shift_move_spec(b, d) == 0 {
            crate::bitscan::lemma_bits_of_zero();
        } else {
            crate::shared::lemma_single_bit_shape(shift_move_spec(b, d));
            crate::bitscan::lemma_bits_of_single(shift_move_spec(b, d));
        }
        crate::bitscan::lemma_bits_of_single(b);
    }
}

/// A shift distributes over unions, keeps disjoint masks disjoint, and sends
/// a single square to at most one square.
pub proof fn lemma_shift_split(b: u64, c: u64, d: ChessDirection)
    ensures
        shift_move_spec(b | c, d) == shift_move_spec(b, d) | shift_move_spec(c, d),
        b & c == 0 ==> shift_move_spec(b, d) & shift_move_spec(c, d) == 0,
        crate::shared::is_single_bit(b) ==> shift_move_spec(b, d) == 0 || crate::shared::is_single_bit(
            shift_move_spec(b, d),
        ),
{
    crate::shared::lemma_single_bit_shape(b);
    assert((shift_up(b | c) == shift_up(b) | shift_up(c)) && (b & c == 0 ==> shift_up(b) & shift_up(c) == 0) && ((b != 0 && b & (b - 1) as u64 == 0) ==> (shift_up(b) == 0 || (shift_up(b) != 0 && shift_up(b) & (shift_up(b) - 1) as u64 == 0)))
        && (shift_up_right(b | c) == shift_up_right(b) | shift_up_right(c)) && (b & c == 0 ==> shift_up_right(b) & shift_up_right(c) == 0) && ((b != 0 && b & (b - 1) as u64 == 0) ==> (shift_up_right(b) == 0 || (shift_up_right(b) != 0 && shift_up_right(b) & (shift_up_right(b) - 1) as u64 == 0)))
        && (shift_right(b | c) == shift_right(b) | shift_right(c)) && (b & c == 0 ==> shift_right(b) & shift_right(c) == 0) && ((b != 0 && b & (b - 1) as u64 == 0) ==> (shift_right(b) == 0 || (shift_right(b) != 0 && shift_right(b) & (shift_right(b) - 1) as u64 == 0)))
        && (shift_down_right(b | c) == shift_down_right(b) | shift_down_right(c)) && (b & c == 0 ==> shift_down_right(b) & shift_down_right(c) == 0) && ((b != 0 && b & (b - 1) as u64 == 0) ==> (shift_down_right(b) == 0 || (shift_down_right(b) != 0 && shift_down_right(b) & (shift_down_right(b) - 1) as u64 == 0)))
        && (shift_down(b | c) == shift_down(b) | shift_down(c)) && (b & c == 0 ==> shift_down(b) & shift_down(c) == 0) && ((b != 0 && b & (b - 1) as u64 == 0) ==> (shift_down(b) == 0 || (shift_down(b) != 0 && shift_down(b) & (shift_down(b) - 1) as u64 == 0)))
        && (shift_down_left(b | c) == shift_down_left(b) | shift_down_left(c)) && (b & c == 0 ==> shift_down_left(b) & shift_down_left(c) == 0) && ((b != 0 && b & (b - 1) as u64 == 0) ==> (shift_down_left(b) == 0 || (shift_down_left(b) != 0 && shift_down_left(b) & (shift_down_left(b) - 1) as u64 == 0)))
        && (shift_left(b | c) == shift_left(b) | shift_left(c)) && (b & c == 0 ==> shift_left(b) & shift_left(c) == 0) && ((b != 0 && b & (b - 1) as u64 == 0) ==> (shift_left(b) == 0 || (shift_left(b) != 0 && shift_left(b) & (shift_left(b) - 1) as u64 == 0)))
        && (shift_up_left(b | c) == shift_up_left(b) | shift_up_left(c)) && (b & c == 0 ==> shift_up_left(b) & shift_up_left(c) == 0) && ((b != 0 && b & (b - 1) as u64 == 0) ==> (shift_up_left(b) == 0 || (shift_up_left(b) != 0 && shift_up_left(b) & (shift_up_left(b) - 1) as u64 == 0)))
        && (shift_knight_one(b | c) == shift_knight_one(b) | shift_knight_one(c)) && (b & c == 0 ==> shift_knight_one(b) & shift_knight_one(c) == 0) && ((b != 0 && b & (b - 1) as u64 == 0) ==> (shift_knight_one(b) == 0 || (shift_knight_one(b) != 0 && shift_knight_one(b) & (shift_knight_one(b) - 1) as u64 == 0)))
        && (shift_knight_two(b | c) == shift_knight_two(b) | shift_knight_two(c)) && (b & c == 0 ==> shift_knight_two(b) & shift_knight_two(c) == 0) && ((b != 0 && b & (b - 1) as u64 == 0) ==> (shift_knight_two(b) == 0 || (shift_knight_two(b) != 0 && shift_knight_two(b) & (shift_knight_two(b) - 1) as u64 == 0)))
        && (shift_knight_four(b | c) == shift_knight_four(b) | shift_knight_four(c)) && (b & c == 0 ==> shift_knight_four(b) & shift_knight_four(c) == 0) && ((b != 0 && b & (b - 1) as u64 == 0) ==> (shift_knight_four(b) == 0 || (shift_knight_four(b) != 0 && shift_knight_four(b) & (shift_knight_four(b) - 1) as u64 == 0)))
        && (shift_knight_five(b | c) == shift_knight_five(b) | shift_knight_five(c)) && (b & c == 0 ==> shift_knight_five(b) & shift_knight_five(c) == 0) && ((b != 0 && b & (b - 1) as u64 == 0) ==> (shift_knight_five(b) == 0 || (shift_knight_five(b) != 0 && shift_knight_five(b) & (shift_knight_five(b) - 1) as u64 == 0)))
        && (shift_knight_seven(b | c) == shift_knight_seven(b) | shift_knight_seven(c)) && (b & c == 0 ==> shift_knight_seven(b) & shift_knight_seven(c) == 0) && ((b != 0 && b & (b - 1) as u64 == 0) ==> (shift_knight_seven(b) == 0 || (shift_knight_seven(b) != 0 && shift_knight_seven(b) & (shift_knight_seven(b) - 1) as u64 == 0)))
        && (shift_knight_eight(b | c) == shift_knight_eight(b) | shift_knight_eight(c)) && (b & c == 0 ==> shift_knight_eight(b) & shift_knight_eight(c) == 0) && ((b != 0 && b & (b - 1) as u64 == 0) ==> (shift_knight_eight(b) == 0 || (shift_knight_eight(b) != 0 && shift_knight_eight(b) & (shift_knight_eight(b) - 1) as u64 == 0)))
        && (shift_knight_ten(b | c) == shift_knight_ten(b) | shift_knight_ten(c)) && (b & c == 0 ==> shift_knight_ten(b) & shift_knight_ten(c) == 0) && ((b != 0 && b & (b - 1) as u64 == 0) ==> (shift_knight_ten(b) == 0 || (shift_knight_ten(b) != 0 && shift_knight_ten(b) & (shift_knight_ten(b) - 1) as u64 == 0)))
        && (shift_knight_eleven(b | c) == shift_knight_eleven(b) | shift_knight_eleven(c)) && (b & c == 0 ==> shift_knight_eleven(b) & shift_knight_eleven(c) == 0) && ((b != 0 && b & (b - 1) as u64 == 0) ==> (shift_knight_eleven(b) == 0 || (shift_knight_eleven(b) != 0 && shift_knight_eleven(b) & (shift_knight_eleven(b) - 1) as u64 == 0)))) by (bit_vector);
    if crate::shared::is_single_bit(b) && shift_move_spec(b, d) != 0 {
        crate::shared::lemma_single_bit_shape(shift_move_spec(b, d));
    }
}


/// `m` shifted `n` steps in direction `d`.
pub open spec fn iter_shift(m: u64, d: ChessDirection, n: nat) -> u64
    decreases n,
{
    if n == 0 {
        m
    } else {
        shift_move_spec(iter_shift(m, d, (n - 1) as nat), d)
    }
}

/// Eight steps in any one direction walk every square off the board.
pub proof fn lemma_ray_dies(m: u64, d: ChessDirection)
    ensures
        iter_shift(m, d, 8) == 0,
{
    let m1 = shift_move_spec(m, d);
    let m2 = shift_move_spec(m1, d);
    let m3 = shift_move_spec(m2, d);
    let m4 = shift_move_spec(m3, d);
    let m5 = shift_move_spec(m4, d);
    let m6 = shift_move_spec(m5, d);
    let m7 = shift_move_spec(m6, d);
    let m8 = shift_move_spec(m7, d);
    assert(iter_shift(m, d, 8) == m8) by {
        assert(iter_shift(m, d, 0) == m);
        assert(iter_shift(m, d, 1) == m1);
        assert(iter_shift(m, d, 2) == m2);
        assert(iter_shift(m, d, 3) == m3);
        assert(iter_shift(m, d, 4) == m4);
        assert(iter_shift(m, d, 5) == m5);
        assert(iter_shift(m, d, 6) == m6);
        assert(iter_shift(m, d, 7) == m7);
    }
    assert(shift_up(shift_up(shift_up(shift_up(shift_up(shift_up(shift_up(shift_up(m)))))))) == 0
        && shift_up_right(shift_up_right(shift_up_right(shift_up_right(shift_up_right(shift_up_right(shift_up_right(shift_up_right(m)))))))) == 0
        && shift_right(shift_right(shift_right(shift_right(shift_right(shift_right(shift_right(shift_right(m)))))))) == 0
        && shift_down_right(shift_down_right(shift_down_right(shift_down_right(shift_down_right(shift_down_right(shift_down_right(shift_down_right(m)))))))) == 0
        && shift_down(shift_down(shift_down(shift_down(shift_down(shift_down(shift_down(shift_down(m)))))))) == 0
        && shift_down_left(shift_down_left(shift_down_left(shift_down_left(shift_down_left(shift_down_left(shift_down_left(shift_down_left(m)))))))) == 0
        && shift_left(shift_left(shift_left(shift_left(shift_left(shift_left(shift_left(shift_left(m)))))))) == 0
        && shift_up_left(shift_up_left(shift_up_left(shift_up_left(shift_up_left(shift_up_left(shift_up_left(shift_up_left(m)))))))) == 0
        && shift_knight_one(shift_knight_one(shift_knight_one(shift_knight_one(shift_knight_one(shift_knight_one(shift_knight_one(shift_knight_one(m)))))))) == 0
        && shift_knight_two(shift_knight_two(shift_knight_two(shift_knight_two(shift_knight_two(shift_knight_two(shift_knight_two(shift_knight_two(m)))))))) == 0
        && shift_knight_four(shift_knight_four(shift_knight_four(shift_knight_four(shift_knight_four(shift_knight_four(shift_knight_four(shift_knight_four(m)))))))) == 0
        && shift_knight_five(shift_knight_five(shift_knight_five(shift_knight_five(shift_knight_five(shift_knight_five(shift_knight_five(shift_knight_five(m)))))))) == 0
        && shift_knight_seven(shift_knight_seven(shift_knight_seven(shift_knight_seven(shift_knight_seven(shift_knight_seven(shift_knight_seven(shift_knight_seven(m)))))))) == 0
        && shift_knight_eight(shift_knight_eight(shift_knight_eight(shift_knight_eight(shift_knight_eight(shift_knight_eight(shift_knight_eight(shift_knight_eight(m)))))))) == 0
        && shift_knight_ten(shift_knight_ten(shift_knight_ten(shift_knight_ten(shift_knight_ten(shift_knight_ten(shift_knight_ten(shift_knight_ten(m)))))))) == 0
        && shift_knight_eleven(shift_knight_eleven(shift_knight_eleven(shift_knight_eleven(shift_knight_eleven(shift_knight_eleven(shift_knight_eleven(shift_knight_eleven(m)))))))) == 0) by (bit_vector);
    match d {
        ChessDirection::Up => {
            assert(m8 == shift_up(shift_up(shift_up(shift_up(shift_up(shift_up(shift_up(shift_up(m)))))))));
        },
        ChessDirection::UpRight => {
            assert(m8 == shift_up_right(shift_up_right(shift_up_right(shift_up_right(shift_up_right(shift_up_right(shift_up_right(shift_up_right(m)))))))));
        },
        ChessDirection::Right => {
            assert(m8 == shift_right(shift_right(shift_right(shift_right(shift_right(shift_right(shift_right(shift_right(m)))))))));
        },
        ChessDirection::DownRight => {
            assert(m8 == shift_down_right(shift_down_right(shift_down_right(shift_down_right(shift_down_right(shift_down_right(shift_down_right(shift_down_right(m)))))))));
        },
        ChessDirection::Down => {
            assert(m8 == shift_down(shift_down(shift_down(shift_down(shift_down(shift_down(shift_down(shift_down(m)))))))));
        },
        ChessDirection::DownLeft => {
            assert(m8 == shift_down_left(shift_down_left(shift_down_left(shift_down_left(shift_down_left(shift_down_left(shift_down_left(shift_down_left(m)))))))));
        },
        ChessDirection::Left => {
            assert(m8 == shift_left(shift_left(shift_left(shift_left(shift_left(shift_left(shift_left(shift_left(m)))))))));
        },
        ChessDirection::UpLeft => {
            assert(m8 == shift_up_left(shift_up_left(shift_up_left(shift_up_left(shift_up_left(shift_up_left(shift_up_left(shift_up_left(m)))))))));
        },
        ChessDirection::KnightOne => {
            assert(m8 == shift_knight_one(shift_knight_one(shift_knight_one(shift_knight_one(shift_knight_one(shift_knight_one(shift_knight_one(shift_knight_one(m)))))))));
        },
        ChessDirection::KnightTwo => {
            assert(m8 == shift_knight_two(shift_knight_two(shift_knight_two(shift_knight_two(shift_knight_two(shift_knight_two(shift_knight_two(shift_knight_two(m)))))))));
        },
        ChessDirection::KnightFour => {
            assert(m8 == shift_knight_four(shift_knight_four(shift_knight_four(shift_knight_four(shift_knight_four(shift_knight_four(shift_knight_four(shift_knight_four(m)))))))));
        },
        ChessDirection::KnightFive => {
            assert(m8 == shift_knight_five(shift_knight_five(shift_knight_five(shift_knight_five(shift_knight_five(shift_knight_five(shift_knight_five(shift_knight_five(m)))))))));
        },
        ChessDirection::KnightSeven => {
            assert(m8 == shift_knight_seven(shift_knight_seven(shift_knight_seven(shift_knight_seven(shift_knight_seven(shift_knight_seven(shift_knight_seven(shift_knight_seven(m)))))))));
        },
        ChessDirection::KnightEight => {
            assert(m8 == shift_knight_eight(shift_knight_eight(shift_knight_eight(shift_knight_eight(shift_knight_eight(shift_knight_eight(shift_knight_eight(shift_knight_eight(m)))))))));
        },
        ChessDirection::KnightTen => {
            assert(m8 == shift_knight_ten(shift_knight_ten(shift_knight_ten(shift_knight_ten(shift_knight_ten(shift_knight_ten(shift_knight_ten(shift_knight_ten(m)))))))));
        },
        ChessDirection::KnightEleven => {
            assert(m8 == shift_knight_eleven(shift_knight_eleven(shift_knight_eleven(shift_knight_eleven(shift_knight_eleven(shift_knight_eleven(shift_knight_eleven(shift_knight_eleven(m)))))))));
        },
    }
}

/// A shift of a subset stays inside the shift of the whole.
pub proof fn lemma_shift_monotone(x: u64, y: u64, d: ChessDirection)
    ensures
        x & y == x ==> shift_move_spec(x, d) & shift_move_spec(y, d) == shift_move_spec(x, d),
{
    assert((x & y == x ==> shift_up(x) & shift_up(y) == shift_up(x))
        && (x & y == x ==> shift_up_right(x) & shift_up_right(y) == shift_up_right(x))
        && (x & y == x ==> shift_right(x) & shift_right(y) == shift_right(x))
        && (x & y == x ==> shift_down_right(x) & shift_down_right(y) == shift_down_right(x))
        && (x & y == x ==> shift_down(x) & shift_down(y) == shift_down(x))
        && (x & y == x ==> shift_down_left(x) & shift_down_left(y) == shift_down_left(x))
        && (x & y == x ==> shift_left(x) & shift_left(y) == shift_left(x))
        && (x & y == x ==> shift_up_left(x) & shift_up_left(y) == shift_up_left(x))
        && (x & y == x ==> shift_knight_one(x) & shift_knight_one(y) == shift_knight_one(x))
        && (x & y == x ==> shift_knight_two(x) & shift_knight_two(y) == shift_knight_two(x))
        && (x & y == x ==> shift_knight_four(x) & shift_knight_four(y) == shift_knight_four(x))
        && (x & y == x ==> shift_knight_five(x) & shift_knight_five(y) == shift_knight_five(x))
        && (x & y == x ==> shift_knight_seven(x) & shift_knight_seven(y) == shift_knight_seven(x))
        && (x & y == x ==> shift_knight_eight(x) & shift_knight_eight(y) == shift_knight_eight(x))
        && (x & y == x ==> shift_knight_ten(x) & shift_knight_ten(y) == shift_knight_ten(x))
        && (x & y == x ==> shift_knight_eleven(x) & shift_knight_eleven(y) == shift_knight_eleven(x))) by (bit_vector);
}

/// Containment of masks is transitive.
pub proof fn lemma_subset_trans(a: u64, b: u64, c: u64)
    ensures
        (a & b == a && b & c == b) ==> a & c == a,
{
    assert((a & b == a && b & c == b) ==> a & c == a) by (bit_vector);
}

/// A union of two masks inside `c` lies inside `c`.
pub proof fn lemma_union_subset(a: u64, b: u64, c: u64)
    ensures
        (a & c == a && b & c == b) ==> (a | b) & c == (a | b),
{
    assert((a & c == a && b & c == b) ==> (a | b) & c == (a | b)) by (bit_vector);
}


/// A single destination square reached by a shift has a single origin square
/// one opposite step back, inside the mask that was shifted.
pub proof fn lemma_shift_origin(b: u64, x: u64, d: ChessDirection)
    ensures
        (crate::shared::is_single_bit(b) && b & shift_move_spec(x, d) == b) ==> (
        crate::shared::is_single_bit(shift_move_spec(b, opposite_direction(d)))
            && shift_move_spec(b, opposite_direction(d)) & x == shift_move_spec(
            b,
            opposite_direction(d),
        )),
{
    crate::shared::lemma_single_bit_shape(b);
    crate::shared::lemma_single_bit_shape(shift_move_spec(b, opposite_direction(d)));
    assert(((b != 0 && b & (b - 1) as u64 == 0 && b & shift_up(x) == b) ==> (shift_down(b) != 0 && shift_down(b) & (shift_down(b) - 1) as u64 == 0 && shift_down(b) & x == shift_down(b)))
        && ((b != 0 && b & (b - 1) as u64 == 0 && b & shift_up_right(x) == b) ==> (shift_down_left(b) != 0 && shift_down_left(b) & (shift_down_left(b) - 1) as u64 == 0 && shift_down_left(b) & x == shift_down_left(b)))
        && ((b != 0 && b & (b - 1) as u64 == 0 && b & shift_right(x) == b) ==> (shift_left(b) != 0 && shift_left(b) & (shift_left(b) - 1) as u64 == 0 && shift_left(b) & x == shift_left(b)))
        && ((b != 0 && b & (b - 1) as u64 == 0 && b & shift_down_right(x) == b) ==> (shift_up_left(b) != 0 && shift_up_left(b) & (shift_up_left(b) - 1) as u64 == 0 && shift_up_left(b) & x == shift_up_left(b)))
        && ((b != 0 && b & (b - 1) as u64 == 0 && b & shift_down(x) == b) ==> (shift_up(b) != 0 && shift_up(b) & (shift_up(b) - 1) as u64 == 0 && shift_up(b) & x == shift_up(b)))
        && ((b != 0 && b & (b - 1) as u64 == 0 && b & shift_down_left(x) == b) ==> (shift_up_right(b) != 0 && shift_up_right(b) & (shift_up_right(b) - 1) as u64 == 0 && shift_up_right(b) & x == shift_up_right(b)))
        && ((b != 0 && b & (b - 1) as u64 == 0 && b & shift_left(x) == b) ==> (shift_right(b) != 0 && shift_right(b) & (shift_right(b) - 1) as u64 == 0 && shift_right(b) & x == shift_right(b)))
        && ((b != 0 && b & (b - 1) as u64 == 0 && b & shift_up_left(x) == b) ==> (shift_down_right(b) != 0 && shift_down_right(b) & (shift_down_right(b) - 1) as u64 == 0 && shift_down_right(b) & x == shift_down_right(b)))
        && ((b != 0 && b & (b - 1) as u64 == 0 && b & shift_knight_one(x) == b) ==> (shift_knight_seven(b) != 0 && shift_knight_seven(b) & (shift_knight_seven(b) - 1) as u64 == 0 && shift_knight_seven(b) & x == shift_knight_seven(b)))
        && ((b != 0 && b & (b - 1) as u64 == 0 && b & shift_knight_two(x) == b) ==> (shift_knight_eight(b) != 0 && shift_knight_eight(b) & (shift_knight_eight(b) - 1) as u64 == 0 && shift_knight_eight(b) & x == shift_knight_eight(b)))
        && ((b != 0 && b & (b - 1) as u64 == 0 && b & shift_knight_four(x) == b) ==> (shift_knight_ten(b) != 0 && shift_knight_ten(b) & (shift_knight_ten(b) - 1) as u64 == 0 && shift_knight_ten(b) & x == shift_knight_ten(b)))
        && ((b != 0 && b & (b - 1) as u64 == 0 && b & shift_knight_five(x) == b) ==> (shift_knight_eleven(b) != 0 && shift_knight_eleven(b) & (shift_knight_eleven(b) - 1) as u64 == 0 && shift_knight_eleven(b) & x == shift_knight_eleven(b)))
        && ((b != 0 && b & (b - 1) as u64 == 0 && b & shift_knight_seven(x) == b) ==> (shift_knight_one(b) != 0 && shift_knight_one(b) & (shift_knight_one(b) - 1) as u64 == 0 && shift_knight_one(b) & x == shift_knight_one(b)))
        && ((b != 0 && b & (b - 1) as u64 == 0 && b & shift_knight_eight(x) == b) ==> (shift_knight_two(b) != 0 && shift_knight_two(b) & (shift_knight_two(b) - 1) as u64 == 0 && shift_knight_two(b) & x == shift_knight_two(b)))
        && ((b != 0 && b & (b - 1) as u64 == 0 && b & shift_knight_ten(x) == b) ==> (shift_knight_four(b) != 0 && shift_knight_four(b) & (shift_knight_four(b) - 1) as u64 == 0 && shift_knight_four(b) & x == shift_knight_four(b)))
        && ((b != 0 && b & (b - 1) as u64 == 0 && b & shift_knight_eleven(x) == b) ==> (shift_knight_five(b) != 0 && shift_knight_five(b) & (shift_knight_five(b) - 1) as u64 == 0 && shift_knight_five(b) & x == shift_knight_five(b)))) by (bit_vector);
}

/// Shifting the empty mask yields the empty mask.
pub proof fn lemma_shift_zero(d: ChessDirection)
    ensures
        shift_move_spec(0, d) == 0,
{
    lemma_shift_split(0, 0, d);
    crate::shared::lemma_meet(0, 0);
    crate::shared::lemma_meet(shift_move_spec(0, d), shift_move_spec(0, d));
    assert(shift_move_spec(0u64 | 0u64, d) == shift_move_spec(0, d) | shift_move_spec(0, d));
    assert(0u64 | 0u64 == 0u64) by (bit_vector);
    assert(shift_move_spec(0, d) & shift_move_spec(0, d) == 0);
}

/// Walking `n` steps from the first step's result is walking `n + 1` steps
/// from the start.
pub proof fn lemma_iter_shift_front(m: u64, d: ChessDirection, n: nat)
    ensures
        iter_shift(shift_move_spec(m, d), d, n) == iter_shift(m, d, (n + 1) as nat),
    decreases n,
{
    if n == 0 {
        assert(iter_shift(shift_move_spec(m, d), d, 0) == shift_move_spec(m, d));
        assert(iter_shift(m, d, 1) == shift_move_spec(iter_shift(m, d, 0), d));
    } else {
        lemma_iter_shift_front(m, d, (n - 1) as nat);
        assert(iter_shift(shift_move_spec(m, d), d, n) == shift_move_spec(
            iter_shift(shift_move_spec(m, d), d, (n - 1) as nat),
            d,
        ));
        assert(iter_shift(m, d, (n + 1) as nat) == shift_move_spec(iter_shift(m, d, n), d));
    }
}

} // verus!
