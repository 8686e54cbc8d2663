use vstd::prelude::*;

use crate::chess_state::coordinates::CoordinateError;
use crate::chess_state::coordinates::XCoordinate;
use crate::chess_state::coordinates::YCoordinate;
use crate::chess_state::coordinates::lemma_mask_shift_forms;
use crate::chess_state::coordinates::lemma_masks_partition_board;
use crate::chess_state::coordinates::lemma_single_bit_unique_components;
use crate::chess_state::coordinates::x_char;
use crate::chess_state::coordinates::x_from_char;
use crate::chess_state::coordinates::x_index;
use crate::chess_state::coordinates::x_mask;
use crate::chess_state::coordinates::x_of_mask;
use crate::chess_state::coordinates::y_char;
use crate::chess_state::coordinates::y_from_char;
use crate::chess_state::coordinates::y_index;
use crate::chess_state::coordinates::y_mask;
use crate::chess_state::coordinates::y_of_mask;
use crate::shared::has_one_bit_set;
use vstd::string::StrSliceExecFns;
use crate::shared::is_single_bit;
use crate::shared::lemma_mask_basics;

verus! {

/// One square of the board, as the pair of its file and rank.
#[derive(Debug, Clone, Copy, PartialEq, Eq, Structural)]
pub struct CoordinatePosition {
    pub x: XCoordinate,
    pub y: YCoordinate,
}

/// The square named by two characters, a file letter then a rank digit.
pub open spec fn square_from_chars(cx: char, cy: char) -> Result<
    CoordinatePosition,
    CoordinateError,
> {
    match x_from_char(cx) {
        Err(e) => Err(e),
        Ok(x) => match y_from_char(cy) {
            Err(e) => Err(e),
            Ok(y) => Ok(CoordinatePosition { x, y }),
        },
    }
}

/// The square whose file and rank masks meet `m` (meaningful for single-bit
/// masks).
pub open spec fn square_of(m: u64) -> CoordinatePosition {
    CoordinatePosition { x: x_of_mask(m), y: y_of_mask(m) }
}

/// The square named by a single-bit mask; the empty mask and masks with more
/// than one bit are refused.
pub open spec fn square_from_mask(m: u64) -> Result<CoordinatePosition, CoordinateError> {
    if is_single_bit(m) {
        Ok(square_of(m))
    } else if m != 0 {
        Err(CoordinateError::XYCoordinatesFromMultiBitBitmask(m))
    } else {
        Err(CoordinateError::XYCoordinatesFromEmptyBitmask(m))
    }
}

impl CoordinatePosition {
    /// The single-bit mask of this square: the intersection of its file's and
    /// its rank's masks.
    pub open spec fn as_mask(self) -> u64 {
        x_mask(self.x) & y_mask(self.y)
    }

    /// The two characters naming this square.
    pub open spec fn as_chars(self) -> Seq<char> {
        seq![x_char(self.x), y_char(self.y)]
    }

    /// Reads a square from a two-character name such as `e4`; refuses strings
    /// of any other length and characters outside `a`-`h` / `1`-`8`.
    pub fn from_str(input: &str) -> (r: Result<Self, CoordinateError>)
        ensures
            input@.len() == 2 ==> r == square_from_chars(input@[0], input@[1]),
            input@.len() != 2 ==> (r matches Err(
                CoordinateError::XYCoordinatesFromInvalidLengthStr(s),
            ) && s@ == input@),
    {
        if input.unicode_len() != 2 {
            return Err(CoordinateError::XYCoordinatesFromInvalidLengthStr(input.to_owned()));
        }
        let x_char = input.get_char(0);
        let y_char = input.get_char(1);

        let x_enum: XCoordinate = match XCoordinate::from_char(x_char) {
            Ok(x) => x,
            Err(e) => {
                return Err(e);
            },
        };
        let y_enum: YCoordinate = match YCoordinate::from_char(y_char) {
            Ok(y) => y,
            Err(e) => {
                return Err(e);
            },
        };

        Ok(Self { x: x_enum, y: y_enum })
    }

    /// Reads a square from a bitmask with exactly one bit set.
    pub fn from_bitmask(bitmask: u64) -> (r: Result<Self, CoordinateError>)
        ensures
            r == square_from_mask(bitmask),
    {
        if has_one_bit_set(bitmask) {
            proof {
                lemma_single_bit_unique_components(bitmask);
            }
            let x_enum: XCoordinate = match XCoordinate::from_mask(bitmask) {
                Ok(x) => x,
                Err(e) => {
                    return Err(e);
                },
            };
            let y_enum: YCoordinate = match YCoordinate::from_mask(bitmask) {
                Ok(y) => y,
                Err(e) => {
                    return Err(e);
                },
            };
            Ok(Self { x: x_enum, y: y_enum })
        } else if bitmask != 0 {
            Err(CoordinateError::XYCoordinatesFromMultiBitBitmask(bitmask))
        } else {
            Err(CoordinateError::XYCoordinatesFromEmptyBitmask(bitmask))
        }
    }

    /// The single-bit mask of this square.
    pub fn to_bitmask(self) -> (r: u64)
        ensures
            r == self.as_mask(),
    {
        let all_x = self.x.to_mask();
        let all_y = self.y.to_mask();
        // the only intersecting point of x and y is the pair (x, y)
        all_x & all_y
    }

    /// The two-character name of this square, such as `e4`.
    pub fn to_string(&self) -> (r: String)
        ensures
            r@ == self.as_chars(),
    {
        let mut out = self.x.to_letter_str().to_owned();
        out.append(self.y.to_digit_str());
        proof {
            assert(out@ =~= self.as_chars());
        }
        out
    }
}


/// The bit index of a square's single-bit mask, used as its table key.
pub open spec fn square_key(c: CoordinatePosition) -> u8 {
    vstd::std_specs::bits::u64_trailing_zeros(c.as_mask()) as u8
}

/// A square's key is a valid bit position, and shifting a one to it rebuilds
/// the square's mask.
pub proof fn lemma_square_key(c: CoordinatePosition)
    ensures
        square_key(c) < 64,
        (1u64 << (square_key(c) as u64)) == c.as_mask(),
        square_from_mask(c.as_mask()) == Ok::<CoordinatePosition, CoordinateError>(c),
{
    lemma_square_mask_round_trip(c);
    crate::bitscan::lemma_single_bit_lowest(c.as_mask());
}

/// A single-bit mask names a square, and that square's mask is the one we
/// started from.
pub proof fn lemma_mask_square_round_trip(m: u64)
    requires
        is_single_bit(m),
    ensures
        square_from_mask(m) matches Ok(c) && c.as_mask() == m,
{
    lemma_mask_basics();
    lemma_single_bit_unique_components(m);
    let c = CoordinatePosition { x: x_of_mask(m), y: y_of_mask(m) };
    lemma_square_mask_round_trip(c);
    crate::shared::lemma_single_bit_facts(m, x_mask(c.x));
    crate::shared::lemma_single_bit_facts(m, y_mask(c.y));
    assert(m & x_mask(c.x) == m && m & y_mask(c.y) == m);
    assert(m & c.as_mask() == m);
    crate::shared::lemma_single_bit_facts(m, c.as_mask());
}

/// Reading a square's two-character name back yields the same square.
pub proof fn lemma_square_string_round_trip(c: CoordinatePosition)
    ensures
        square_from_chars(x_char(c.x), y_char(c.y)) == Ok::<CoordinatePosition, CoordinateError>(c),
{
}

/// A square's mask names exactly that square: it has a single bit, and reading
/// it back yields the same square.
pub proof fn lemma_square_mask_round_trip(c: CoordinatePosition)
    ensures
        is_single_bit(c.as_mask()),
        square_from_mask(c.as_mask()) == Ok::<CoordinatePosition, CoordinateError>(c),
{
    lemma_mask_basics();
    lemma_masks_partition_board();
    lemma_mask_shift_forms();
    let xi = x_index(c.x);
    let yi = y_index(c.y);
    let m = c.as_mask();
    assert(x_mask(c.x) == 0x0101_0101_0101_0101u64 << ((7 - xi) as u64));
    assert(y_mask(c.y) == 0x0000_0000_0000_00FFu64 << ((8 * yi) as u64));
    let i = (8 * yi + 7 - xi) as u64;
    assert(xi < 8 && yi < 8);
    let a = xi as u64;
    let b = yi as u64;
    assert(a < 8 && b < 8 ==> ((0x0101_0101_0101_0101u64 << ((7 - a) as u64)) & (
    0x0000_0000_0000_00FFu64 << ((8 * b) as u64))) == 1u64 << ((8 * b + 7 - a) as u64))
        by (bit_vector);
    assert(m == 1u64 << i);
    assert(is_single_bit(m));
    assert(m & x_mask(c.x) == m);
    assert(m & y_mask(c.y) == m);
    assert(m != 0) by {
        assert(forall|j: u64| j < 64 ==> 1u64 << j != 0) by (bit_vector);
    }
    assert forall|w: XCoordinate| w != c.x implies m & x_mask(w) == 0 by {
        assert(x_mask(c.x) & x_mask(w) == 0);
    }
    assert forall|w: YCoordinate| w != c.y implies m & y_mask(w) == 0 by {
        assert(y_mask(c.y) & y_mask(w) == 0);
    }
    assert(x_of_mask(m) == c.x);
    assert(y_of_mask(m) == c.y);
}

} // verus!
