use vstd::prelude::*;

use crate::shared::is_single_bit;

verus! {

/// The ways a coordinate conversion can be refused.
#[derive(Debug, Clone, PartialEq, Eq)]
pub enum CoordinateError {
    XCoordinateFromInvalidChar(char),
    YCoordinateFromInvalidChar(char),
    XYCoordinatesFromInvalidStr(String),
    XYCoordinatesFromInvalidLengthStr(String),
    XCoordinateFromInvalidBitmask(u64),
    YCoordinateFromInvalidBitmask(u64),
    XYCoordinatesFromEmptyBitmask(u64),
    XYCoordinatesFromMultiBitBitmask(u64),
}

/// A file of the board. Its mask holds all eight squares of that file, with
/// file A in the highest bit of each byte.
#[derive(Debug, Clone, Copy, PartialEq, Eq, Structural)]
pub enum XCoordinate {
    A,
    B,
    C,
    D,
    E,
    F,
    G,
    H,
}

/// A rank of the board. Its mask holds all eight squares of that rank, with
/// rank One in the lowest byte.
#[derive(Debug, Clone, Copy, PartialEq, Eq, Structural)]
pub enum YCoordinate {
    One,
    Two,
    Three,
    Four,
    Five,
    Six,
    Seven,
    Eight,
}

/// The bitmask holding the eight squares of file `x`.
pub open spec fn x_mask(x: XCoordinate) -> u64 {
    match x {
        XCoordinate::A => 0x8080_8080_8080_8080u64,
        XCoordinate::B => 0x4040_4040_4040_4040u64,
        XCoordinate::C => 0x2020_2020_2020_2020u64,
        XCoordinate::D => 0x1010_1010_1010_1010u64,
        XCoordinate::E => 0x0808_0808_0808_0808u64,
        XCoordinate::F => 0x0404_0404_0404_0404u64,
        XCoordinate::G => 0x0202_0202_0202_0202u64,
        XCoordinate::H => 0x0101_0101_0101_0101u64,
    }
}

/// The bitmask holding the eight squares of rank `y`.
pub open spec fn y_mask(y: YCoordinate) -> u64 {
    match y {
        YCoordinate::One => 0x0000_0000_0000_00FFu64,
        YCoordinate::Two => 0x0000_0000_0000_FF00u64,
        YCoordinate::Three => 0x0000_0000_00FF_0000u64,
        YCoordinate::Four => 0x0000_0000_FF00_0000u64,
        YCoordinate::Five => 0x0000_00FF_0000_0000u64,
        YCoordinate::Six => 0x0000_FF00_0000_0000u64,
        YCoordinate::Seven => 0x00FF_0000_0000_0000u64,
        YCoordinate::Eight => 0xFF00_0000_0000_0000u64,
    }
}

/// The lower-case letter naming file `x`.
pub open spec fn x_char(x: XCoordinate) -> char {
    match x {
        XCoordinate::A => 'a',
        XCoordinate::B => 'b',
        XCoordinate::C => 'c',
        XCoordinate::D => 'd',
        XCoordinate::E => 'e',
        XCoordinate::F => 'f',
        XCoordinate::G => 'g',
        XCoordinate::H => 'h',
    }
}

/// The digit naming rank `y`.
pub open spec fn y_char(y: YCoordinate) -> char {
    match y {
        YCoordinate::One => '1',
        YCoordinate::Two => '2',
        YCoordinate::Three => '3',
        YCoordinate::Four => '4',
        YCoordinate::Five => '5',
        YCoordinate::Six => '6',
        YCoordinate::Seven => '7',
        YCoordinate::Eight => '8',
    }
}

/// The file named by `c`, case-insensitive; out-of-range characters are refused.
pub open spec fn x_from_char(c: char) -> Result<XCoordinate, CoordinateError> {
    if c == 'a' || c == 'A' {
        Ok(XCoordinate::A)
    } else if c == 'b' || c == 'B' {
        Ok(XCoordinate::B)
    } else if c == 'c' || c == 'C' {
        Ok(XCoordinate::C)
    } else if c == 'd' || c == 'D' {
        Ok(XCoordinate::D)
    } else if c == 'e' || c == 'E' {
        Ok(XCoordinate::E)
    } else if c == 'f' || c == 'F' {
        Ok(XCoordinate::F)
    } else if c == 'g' || c == 'G' {
        Ok(XCoordinate::G)
    } else if c == 'h' || c == 'H' {
        Ok(XCoordinate::H)
    } else {
        Err(CoordinateError::XCoordinateFromInvalidChar(c))
    }
}

/// The rank named by digit `c`; out-of-range characters are refused.
pub open spec fn y_from_char(c: char) -> Result<YCoordinate, CoordinateError> {
    if c == '1' {
        Ok(YCoordinate::One)
    } else if c == '2' {
        Ok(YCoordinate::Two)
    } else if c == '3' {
        Ok(YCoordinate::Three)
    } else if c == '4' {
        Ok(YCoordinate::Four)
    } else if c == '5' {
        Ok(YCoordinate::Five)
    } else if c == '6' {
        Ok(YCoordinate::Six)
    } else if c == '7' {
        Ok(YCoordinate::Seven)
    } else if c == '8' {
        Ok(YCoordinate::Eight)
    } else {
        Err(CoordinateError::YCoordinateFromInvalidChar(c))
    }
}

/// How many of the eight file masks `m` intersects.
pub open spec fn x_match_count(m: u64) -> int {
    (if m & x_mask(XCoordinate::A) != 0 {
        1int
    } else {
        0int
    }) + (if m & x_mask(XCoordinate::B) != 0 {
        1int
    } else {
        0int
    }) + (if m & x_mask(XCoordinate::C) != 0 {
        1int
    } else {
        0int
    }) + (if m & x_mask(XCoordinate::D) != 0 {
        1int
    } else {
        0int
    }) + (if m & x_mask(XCoordinate::E) != 0 {
        1int
    } else {
        0int
    }) + (if m & x_mask(XCoordinate::F) != 0 {
        1int
    } else {
        0int
    }) + (if m & x_mask(XCoordinate::G) != 0 {
        1int
    } else {
        0int
    }) + (if m & x_mask(XCoordinate::H) != 0 {
        1int
    } else {
        0int
    })
}

/// How many of the eight rank masks `m` intersects.
pub open spec fn y_match_count(m: u64) -> int {
    (if m & y_mask(YCoordinate::One) != 0 {
        1int
    } else {
        0int
    }) + (if m & y_mask(YCoordinate::Two) != 0 {
        1int
    } else {
        0int
    }) + (if m & y_mask(YCoordinate::Three) != 0 {
        1int
    } else {
        0int
    }) + (if m & y_mask(YCoordinate::Four) != 0 {
        1int
    } else {
        0int
    }) + (if m & y_mask(YCoordinate::Five) != 0 {
        1int
    } else {
        0int
    }) + (if m & y_mask(YCoordinate::Six) != 0 {
        1int
    } else {
        0int
    }) + (if m & y_mask(YCoordinate::Seven) != 0 {
        1int
    } else {
        0int
    }) + (if m & y_mask(YCoordinate::Eight) != 0 {
        1int
    } else {
        0int
    })
}

/// The first file whose mask intersects `m`; file A when none does.
pub open spec fn x_of_mask(m: u64) -> XCoordinate {
    if m & x_mask(XCoordinate::A) != 0 {
        XCoordinate::A
    } else if m & x_mask(XCoordinate::B) != 0 {
        XCoordinate::B
    } else if m & x_mask(XCoordinate::C) != 0 {
        XCoordinate::C
    } else if m & x_mask(XCoordinate::D) != 0 {
        XCoordinate::D
    } else if m & x_mask(XCoordinate::E) != 0 {
        XCoordinate::E
    } else if m & x_mask(XCoordinate::F) != 0 {
        XCoordinate::F
    } else if m & x_mask(XCoordinate::G) != 0 {
        XCoordinate::G
    } else if m & x_mask(XCoordinate::H) != 0 {
        XCoordinate::H
    } else {
        XCoordinate::A
    }
}

/// The first rank whose mask intersects `m`; rank One when none does.
pub open spec fn y_of_mask(m: u64) -> YCoordinate {
    if m & y_mask(YCoordinate::One) != 0 {
        YCoordinate::One
    } else if m & y_mask(YCoordinate::Two) != 0 {
        YCoordinate::Two
    } else if m & y_mask(YCoordinate::Three) != 0 {
        YCoordinate::Three
    } else if m & y_mask(YCoordinate::Four) != 0 {
        YCoordinate::Four
    } else if m & y_mask(YCoordinate::Five) != 0 {
        YCoordinate::Five
    } else if m & y_mask(YCoordinate::Six) != 0 {
        YCoordinate::Six
    } else if m & y_mask(YCoordinate::Seven) != 0 {
        YCoordinate::Seven
    } else if m & y_mask(YCoordinate::Eight) != 0 {
        YCoordinate::Eight
    } else {
        YCoordinate::One
    }
}

/// What converting a bitmask to a file returns: an error when the mask spans
/// several files, the matching file otherwise (file A for the empty mask).
pub open spec fn x_from_mask(m: u64) -> Result<XCoordinate, CoordinateError> {
    if x_match_count(m) > 1 {
        Err(CoordinateError::XCoordinateFromInvalidBitmask(m))
    } else {
        Ok(x_of_mask(m))
    }
}

/// What converting a bitmask to a rank returns.
pub open spec fn y_from_mask(m: u64) -> Result<YCoordinate, CoordinateError> {
    if y_match_count(m) > 1 {
        Err(CoordinateError::YCoordinateFromInvalidBitmask(m))
    } else {
        Ok(y_of_mask(m))
    }
}

/// Conversion between a coordinate component and one of its representations.
/// Each implementation says in `from_value_spec` and `to_value_spec` exactly
/// what its conversions return.
pub trait CoordinateConversion<T>: Sized {
    type Error;

    spec fn from_value_spec(value: T) -> Result<Self, Self::Error>;

    spec fn to_value_spec(self) -> T;

    fn try_from_value(value: T) -> (r: Result<Self, Self::Error>)
        ensures
            r == Self::from_value_spec(value),
    ;

    fn to_value(self) -> (r: T)
        ensures
            r == self.to_value_spec(),
    ;
}

impl XCoordinate {
    /// The file named by a letter `a`-`h` (either case); other characters are
    /// refused with `XCoordinateFromInvalidChar`.
    pub fn from_char(value: char) -> (r: Result<Self, CoordinateError>)
        ensures
            r == x_from_char(value),
    {
        match value {
            'a' | 'A' => Ok(XCoordinate::A),
            'b' | 'B' => Ok(XCoordinate::B),
            'c' | 'C' => Ok(XCoordinate::C),
            'd' | 'D' => Ok(XCoordinate::D),
            'e' | 'E' => Ok(XCoordinate::E),
            'f' | 'F' => Ok(XCoordinate::F),
            'g' | 'G' => Ok(XCoordinate::G),
            'h' | 'H' => Ok(XCoordinate::H),
            _ => Err(CoordinateError::XCoordinateFromInvalidChar(value)),
        }
    }

    /// The lower-case letter naming this file.
    pub fn to_char(self) -> (r: char)
        ensures
            r == x_char(self),
    {
        match self {
            XCoordinate::A => 'a',
            XCoordinate::B => 'b',
            XCoordinate::C => 'c',
            XCoordinate::D => 'd',
            XCoordinate::E => 'e',
            XCoordinate::F => 'f',
            XCoordinate::G => 'g',
            XCoordinate::H => 'h',
        }
    }

    /// The unique file whose mask intersects `value`; refused with
    /// `XCoordinateFromInvalidBitmask` when the mask spans several files, and
    /// file A for the empty mask.
    pub fn from_mask(value: u64) -> (r: Result<Self, CoordinateError>)
        ensures
            r == x_from_mask(value),
    {
        let mut counter: u32 = 0;
        let mut output = XCoordinate::A;
        if value & 0x8080_8080_8080_8080u64 != 0 {
            counter = counter + 1;
            output = XCoordinate::A;
        }
        if value & 0x4040_4040_4040_4040u64 != 0 {
            counter = counter + 1;
            output = XCoordinate::B;
        }
        if value & 0x2020_2020_2020_2020u64 != 0 {
            counter = counter + 1;
            output = XCoordinate::C;
        }
        if value & 0x1010_1010_1010_1010u64 != 0 {
            counter = counter + 1;
            output = XCoordinate::D;
        }
        if value & 0x0808_0808_0808_0808u64 != 0 {
            counter = counter + 1;
            output = XCoordinate::E;
        }
        if value & 0x0404_0404_0404_0404u64 != 0 {
            counter = counter + 1;
            output = XCoordinate::F;
        }
        if value & 0x0202_0202_0202_0202u64 != 0 {
            counter = counter + 1;
            output = XCoordinate::G;
        }
        if value & 0x0101_0101_0101_0101u64 != 0 {
            counter = counter + 1;
            output = XCoordinate::H;
        }
        if counter > 1 {
            return Err(CoordinateError::XCoordinateFromInvalidBitmask(value));
        }
        Ok(output)
    }

    /// The mask of all eight squares of this file.
    pub fn to_mask(self) -> (r: u64)
        ensures
            r == x_mask(self),
    {
        match self {
            XCoordinate::A => 0x8080_8080_8080_8080u64,
            XCoordinate::B => 0x4040_4040_4040_4040u64,
            XCoordinate::C => 0x2020_2020_2020_2020u64,
            XCoordinate::D => 0x1010_1010_1010_1010u64,
            XCoordinate::E => 0x0808_0808_0808_0808u64,
            XCoordinate::F => 0x0404_0404_0404_0404u64,
            XCoordinate::G => 0x0202_0202_0202_0202u64,
            XCoordinate::H => 0x0101_0101_0101_0101u64,
        }
    }
}

impl YCoordinate {
    /// The rank named by a digit `1`-`8`; other characters are refused with
    /// `YCoordinateFromInvalidChar`.
    pub fn from_char(value: char) -> (r: Result<Self, CoordinateError>)
        ensures
            r == y_from_char(value),
    {
        match value {
            '1' => Ok(YCoordinate::One),
            '2' => Ok(YCoordinate::Two),
            '3' => Ok(YCoordinate::Three),
            '4' => Ok(YCoordinate::Four),
            '5' => Ok(YCoordinate::Five),
            '6' => Ok(YCoordinate::Six),
            '7' => Ok(YCoordinate::Seven),
            '8' => Ok(YCoordinate::Eight),
            _ => Err(CoordinateError::YCoordinateFromInvalidChar(value)),
        }
    }

    /// The digit naming this rank.
    pub fn to_char(self) -> (r: char)
        ensures
            r == y_char(self),
    {
        match self {
            YCoordinate::One => '1',
            YCoordinate::Two => '2',
            YCoordinate::Three => '3',
            YCoordinate::Four => '4',
            YCoordinate::Five => '5',
            YCoordinate::Six => '6',
            YCoordinate::Seven => '7',
            YCoordinate::Eight => '8',
        }
    }

    /// The unique rank whose mask intersects `value`; refused with
    /// `YCoordinateFromInvalidBitmask` when the mask spans several ranks, and
    /// rank One for the empty mask.
    pub fn from_mask(value: u64) -> (r: Result<Self, CoordinateError>)
        ensures
            r == y_from_mask(value),
    {
        let mut counter: u32 = 0;
        let mut output = YCoordinate::One;
        if value & 0x0000_0000_0000_00FFu64 != 0 {
            counter = counter + 1;
            output = YCoordinate::One;
        }
        if value & 0x0000_0000_0000_FF00u64 != 0 {
            counter = counter + 1;
            output = YCoordinate::Two;
        }
        if value & 0x0000_0000_00FF_0000u64 != 0 {
            counter = counter + 1;
            output = YCoordinate::Three;
        }
        if value & 0x0000_0000_FF00_0000u64 != 0 {
            counter = counter + 1;
            output = YCoordinate::Four;
        }
        if value & 0x0000_00FF_0000_0000u64 != 0 {
            counter = counter + 1;
            output = YCoordinate::Five;
        }
        if value & 0x0000_FF00_0000_0000u64 != 0 {
            counter = counter + 1;
            output = YCoordinate::Six;
        }
        if value & 0x00FF_0000_0000_0000u64 != 0 {
            counter = counter + 1;
            output = YCoordinate::Seven;
        }
        if value & 0xFF00_0000_0000_0000u64 != 0 {
            counter = counter + 1;
            output = YCoordinate::Eight;
        }
        if counter > 1 {
            return Err(CoordinateError::YCoordinateFromInvalidBitmask(value));
        }
        Ok(output)
    }

    /// The mask of all eight squares of this rank.
    pub fn to_mask(self) -> (r: u64)
        ensures
            r == y_mask(self),
    {
        match self {
            YCoordinate::One => 0x0000_0000_0000_00FFu64,
            YCoordinate::Two => 0x0000_0000_0000_FF00u64,
            YCoordinate::Three => 0x0000_0000_00FF_0000u64,
            YCoordinate::Four => 0x0000_0000_FF00_0000u64,
            YCoordinate::Five => 0x0000_00FF_0000_0000u64,
            YCoordinate::Six => 0x0000_FF00_0000_0000u64,
            YCoordinate::Seven => 0x00FF_0000_0000_0000u64,
            YCoordinate::Eight => 0xFF00_0000_0000_0000u64,
        }
    }
}

impl CoordinateConversion<char> for XCoordinate {
    type Error = CoordinateError;

    open spec fn from_value_spec(value: char) -> Result<Self, CoordinateError> {
        x_from_char(value)
    }

    open spec fn to_value_spec(self) -> char {
        x_char(self)
    }

    fn try_from_value(value: char) -> (r: Result<Self, CoordinateError>) {
        XCoordinate::from_char(value)
    }

    fn to_value(self) -> (r: char) {
        self.to_char()
    }
}

impl CoordinateConversion<char> for YCoordinate {
    type Error = CoordinateError;

    open spec fn from_value_spec(value: char) -> Result<Self, CoordinateError> {
        y_from_char(value)
    }

    open spec fn to_value_spec(self) -> char {
        y_char(self)
    }

    fn try_from_value(value: char) -> (r: Result<Self, CoordinateError>) {
        YCoordinate::from_char(value)
    }

    fn to_value(self) -> (r: char) {
        self.to_char()
    }
}

impl CoordinateConversion<u64> for XCoordinate {
    type Error = CoordinateError;

    open spec fn from_value_spec(value: u64) -> Result<Self, CoordinateError> {
        x_from_mask(value)
    }

    open spec fn to_value_spec(self) -> u64 {
        x_mask(self)
    }

    fn try_from_value(value: u64) -> (r: Result<Self, CoordinateError>) {
        XCoordinate::from_mask(value)
    }

    fn to_value(self) -> (r: u64) {
        self.to_mask()
    }
}

impl CoordinateConversion<u64> for YCoordinate {
    type Error = CoordinateError;

    open spec fn from_value_spec(value: u64) -> Result<Self, CoordinateError> {
        y_from_mask(value)
    }

    open spec fn to_value_spec(self) -> u64 {
        y_mask(self)
    }

    fn try_from_value(value: u64) -> (r: Result<Self, CoordinateError>) {
        YCoordinate::from_mask(value)
    }

    fn to_value(self) -> (r: u64) {
        self.to_mask()
    }
}

/// The eight file masks are pairwise disjoint and together cover the board;
/// the rank masks likewise.
pub proof fn lemma_masks_partition_board()
    ensures
        forall|x1: XCoordinate, x2: XCoordinate| #![auto] x1 != x2 ==> x_mask(x1) & x_mask(x2) == 0,
        forall|y1: YCoordinate, y2: YCoordinate| #![auto] y1 != y2 ==> y_mask(y1) & y_mask(y2) == 0,
        forall|m: u64| #![auto] m != 0 ==> x_match_count(m) >= 1 && y_match_count(m) >= 1,
{
    crate::shared::lemma_mask_basics();
    assert(0x8080_8080_8080_8080u64 & 0x4040_4040_4040_4040u64 == 0
        && 0x8080_8080_8080_8080u64 & 0x2020_2020_2020_2020u64 == 0
        && 0x8080_8080_8080_8080u64 & 0x1010_1010_1010_1010u64 == 0
        && 0x8080_8080_8080_8080u64 & 0x0808_0808_0808_0808u64 == 0
        && 0x8080_8080_8080_8080u64 & 0x0404_0404_0404_0404u64 == 0
        && 0x8080_8080_8080_8080u64 & 0x0202_0202_0202_0202u64 == 0
        && 0x8080_8080_8080_8080u64 & 0x0101_0101_0101_0101u64 == 0
        && 0x4040_4040_4040_4040u64 & 0x2020_2020_2020_2020u64 == 0
        && 0x4040_4040_4040_4040u64 & 0x1010_1010_1010_1010u64 == 0
        && 0x4040_4040_4040_4040u64 & 0x0808_0808_0808_0808u64 == 0
        && 0x4040_4040_4040_4040u64 & 0x0404_0404_0404_0404u64 == 0
        && 0x4040_4040_4040_4040u64 & 0x0202_0202_0202_0202u64 == 0
        && 0x4040_4040_4040_4040u64 & 0x0101_0101_0101_0101u64 == 0
        && 0x2020_2020_2020_2020u64 & 0x1010_1010_1010_1010u64 == 0
        && 0x2020_2020_2020_2020u64 & 0x0808_0808_0808_0808u64 == 0
        && 0x2020_2020_2020_2020u64 & 0x0404_0404_0404_0404u64 == 0
        && 0x2020_2020_2020_2020u64 & 0x0202_0202_0202_0202u64 == 0
        && 0x2020_2020_2020_2020u64 & 0x0101_0101_0101_0101u64 == 0
        && 0x1010_1010_1010_1010u64 & 0x0808_0808_0808_0808u64 == 0
        && 0x1010_1010_1010_1010u64 & 0x0404_0404_0404_0404u64 == 0
        && 0x1010_1010_1010_1010u64 & 0x0202_0202_0202_0202u64 == 0
        && 0x1010_1010_1010_1010u64 & 0x0101_0101_0101_0101u64 == 0
        && 0x0808_0808_0808_0808u64 & 0x0404_0404_0404_0404u64 == 0
        && 0x0808_0808_0808_0808u64 & 0x0202_0202_0202_0202u64 == 0
        && 0x0808_0808_0808_0808u64 & 0x0101_0101_0101_0101u64 == 0
        && 0x0404_0404_0404_0404u64 & 0x0202_0202_0202_0202u64 == 0
        && 0x0404_0404_0404_0404u64 & 0x0101_0101_0101_0101u64 == 0
        && 0x0202_0202_0202_0202u64 & 0x0101_0101_0101_0101u64 == 0
        && 0x0000_0000_0000_00FFu64 & 0x0000_0000_0000_FF00u64 == 0
        && 0x0000_0000_0000_00FFu64 & 0x0000_0000_00FF_0000u64 == 0
        && 0x0000_0000_0000_00FFu64 & 0x0000_0000_FF00_0000u64 == 0
        && 0x0000_0000_0000_00FFu64 & 0x0000_00FF_0000_0000u64 == 0
        && 0x0000_0000_0000_00FFu64 & 0x0000_FF00_0000_0000u64 == 0
        && 0x0000_0000_0000_00FFu64 & 0x00FF_0000_0000_0000u64 == 0
        && 0x0000_0000_0000_00FFu64 & 0xFF00_0000_0000_0000u64 == 0
        && 0x0000_0000_0000_FF00u64 & 0x0000_0000_00FF_0000u64 == 0
        && 0x0000_0000_0000_FF00u64 & 0x0000_0000_FF00_0000u64 == 0
        && 0x0000_0000_0000_FF00u64 & 0x0000_00FF_0000_0000u64 == 0
        && 0x0000_0000_0000_FF00u64 & 0x0000_FF00_0000_0000u64 == 0
        && 0x0000_0000_0000_FF00u64 & 0x00FF_0000_0000_0000u64 == 0
        && 0x0000_0000_0000_FF00u64 & 0xFF00_0000_0000_0000u64 == 0
        && 0x0000_0000_00FF_0000u64 & 0x0000_0000_FF00_0000u64 == 0
        && 0x0000_0000_00FF_0000u64 & 0x0000_00FF_0000_0000u64 == 0
        && 0x0000_0000_00FF_0000u64 & 0x0000_FF00_0000_0000u64 == 0
        && 0x0000_0000_00FF_0000u64 & 0x00FF_0000_0000_0000u64 == 0
        && 0x0000_0000_00FF_0000u64 & 0xFF00_0000_0000_0000u64 == 0
        && 0x0000_0000_FF00_0000u64 & 0x0000_00FF_0000_0000u64 == 0
        && 0x0000_0000_FF00_0000u64 & 0x0000_FF00_0000_0000u64 == 0
        && 0x0000_0000_FF00_0000u64 & 0x00FF_0000_0000_0000u64 == 0
        && 0x0000_0000_FF00_0000u64 & 0xFF00_0000_0000_0000u64 == 0
        && 0x0000_00FF_0000_0000u64 & 0x0000_FF00_0000_0000u64 == 0
        && 0x0000_00FF_0000_0000u64 & 0x00FF_0000_0000_0000u64 == 0
        && 0x0000_00FF_0000_0000u64 & 0xFF00_0000_0000_0000u64 == 0
        && 0x0000_FF00_0000_0000u64 & 0x00FF_0000_0000_0000u64 == 0
        && 0x0000_FF00_0000_0000u64 & 0xFF00_0000_0000_0000u64 == 0
        && 0x00FF_0000_0000_0000u64 & 0xFF00_0000_0000_0000u64 == 0
        && (forall|m: u64|
        m != 0 ==> (m & 0x8080_8080_8080_8080u64 != 0 || m & 0x4040_4040_4040_4040u64 != 0 || m
            & 0x2020_2020_2020_2020u64 != 0 || m & 0x1010_1010_1010_1010u64 != 0 || m
            & 0x0808_0808_0808_0808u64 != 0 || m & 0x0404_0404_0404_0404u64 != 0 || m
            & 0x0202_0202_0202_0202u64 != 0 || m & 0x0101_0101_0101_0101u64 != 0)) && (forall|m: u64|
        m != 0 ==> (m & 0x0000_0000_0000_00FFu64 != 0 || m & 0x0000_0000_0000_FF00u64 != 0 || m
            & 0x0000_0000_00FF_0000u64 != 0 || m & 0x0000_0000_FF00_0000u64 != 0 || m
            & 0x0000_00FF_0000_0000u64 != 0 || m & 0x0000_FF00_0000_0000u64 != 0 || m
            & 0x00FF_0000_0000_0000u64 != 0 || m & 0xFF00_0000_0000_0000u64 != 0))) by (bit_vector);
}

/// A single-bit mask intersects exactly one file mask and one rank mask.
pub proof fn lemma_single_bit_unique_components(m: u64)
    requires
        is_single_bit(m),
    ensures
        x_match_count(m) == 1,
        y_match_count(m) == 1,
        m & x_mask(x_of_mask(m)) != 0,
        m & y_mask(y_of_mask(m)) != 0,
{
    let i = choose|i: u64| i < 64 && m == (1u64 << i);
    assert((m == 1u64 << i && i < 64 ==> ((if m & 0x8080_8080_8080_8080u64 != 0 {
        1int
    } else {
        0int
    }) + (if m & 0x4040_4040_4040_4040u64 != 0 {
        1int
    } else {
        0int
    }) + (if m & 0x2020_2020_2020_2020u64 != 0 {
        1int
    } else {
        0int
    }) + (if m & 0x1010_1010_1010_1010u64 != 0 {
        1int
    } else {
        0int
    }) + (if m & 0x0808_0808_0808_0808u64 != 0 {
        1int
    } else {
        0int
    }) + (if m & 0x0404_0404_0404_0404u64 != 0 {
        1int
    } else {
        0int
    }) + (if m & 0x0202_0202_0202_0202u64 != 0 {
        1int
    } else {
        0int
    }) + (if m & 0x0101_0101_0101_0101u64 != 0 {
        1int
    } else {
        0int
    })) == 1) && (m == 1u64 << i && i < 64 ==> ((if m & 0x0000_0000_0000_00FFu64 != 0 {
        1int
    } else {
        0int
    }) + (if m & 0x0000_0000_0000_FF00u64 != 0 {
        1int
    } else {
        0int
    }) + (if m & 0x0000_0000_00FF_0000u64 != 0 {
        1int
    } else {
        0int
    }) + (if m & 0x0000_0000_FF00_0000u64 != 0 {
        1int
    } else {
        0int
    }) + (if m & 0x0000_00FF_0000_0000u64 != 0 {
        1int
    } else {
        0int
    }) + (if m & 0x0000_FF00_0000_0000u64 != 0 {
        1int
    } else {
        0int
    }) + (if m & 0x00FF_0000_0000_0000u64 != 0 {
        1int
    } else {
        0int
    }) + (if m & 0xFF00_0000_0000_0000u64 != 0 {
        1int
    } else {
        0int
    })) == 1)) by (bit_vector);
}

/// Every file comes back from its own mask, and every rank likewise.
pub proof fn lemma_component_mask_round_trip()
    ensures
        forall|x: XCoordinate| #![auto] x_from_mask(x_mask(x)) == Ok::<
            XCoordinate,
            CoordinateError,
        >(x),
        forall|y: YCoordinate| #![auto] y_from_mask(y_mask(y)) == Ok::<
            YCoordinate,
            CoordinateError,
        >(y),
{
    lemma_masks_partition_board();
    assert(forall|x: XCoordinate| #![auto] x_mask(x) & x_mask(x) == x_mask(x)
        && x_mask(x) != 0) by {
        assert(0x8080_8080_8080_8080u64 & 0x8080_8080_8080_8080u64 == 0x8080_8080_8080_8080u64
            && 0x4040_4040_4040_4040u64 & 0x4040_4040_4040_4040u64 == 0x4040_4040_4040_4040u64
            && 0x2020_2020_2020_2020u64 & 0x2020_2020_2020_2020u64 == 0x2020_2020_2020_2020u64
            && 0x1010_1010_1010_1010u64 & 0x1010_1010_1010_1010u64 == 0x1010_1010_1010_1010u64
            && 0x0808_0808_0808_0808u64 & 0x0808_0808_0808_0808u64 == 0x0808_0808_0808_0808u64
            && 0x0404_0404_0404_0404u64 & 0x0404_0404_0404_0404u64 == 0x0404_0404_0404_0404u64
            && 0x0202_0202_0202_0202u64 & 0x0202_0202_0202_0202u64 == 0x0202_0202_0202_0202u64
            && 0x0101_0101_0101_0101u64 & 0x0101_0101_0101_0101u64 == 0x0101_0101_0101_0101u64)
            by (bit_vector);
    }
    assert(forall|y: YCoordinate| #![auto] y_mask(y) & y_mask(y) == y_mask(y)
        && y_mask(y) != 0) by {
        assert(0x0000_0000_0000_00FFu64 & 0x0000_0000_0000_00FFu64 == 0x0000_0000_0000_00FFu64
            && 0x0000_0000_0000_FF00u64 & 0x0000_0000_0000_FF00u64 == 0x0000_0000_0000_FF00u64
            && 0x0000_0000_00FF_0000u64 & 0x0000_0000_00FF_0000u64 == 0x0000_0000_00FF_0000u64
            && 0x0000_0000_FF00_0000u64 & 0x0000_0000_FF00_0000u64 == 0x0000_0000_FF00_0000u64
            && 0x0000_00FF_0000_0000u64 & 0x0000_00FF_0000_0000u64 == 0x0000_00FF_0000_0000u64
            && 0x0000_FF00_0000_0000u64 & 0x0000_FF00_0000_0000u64 == 0x0000_FF00_0000_0000u64
            && 0x00FF_0000_0000_0000u64 & 0x00FF_0000_0000_0000u64 == 0x00FF_0000_0000_0000u64
            && 0xFF00_0000_0000_0000u64 & 0xFF00_0000_0000_0000u64 == 0xFF00_0000_0000_0000u64)
            by (bit_vector);
    }
}

/// The index of file `x`, with A as 0 and H as 7.
pub open spec fn x_index(x: XCoordinate) -> int {
    match x {
        XCoordinate::A => 0,
        XCoordinate::B => 1,
        XCoordinate::C => 2,
        XCoordinate::D => 3,
        XCoordinate::E => 4,
        XCoordinate::F => 5,
        XCoordinate::G => 6,
        XCoordinate::H => 7,
    }
}

/// The index of rank `y`, with One as 0 and Eight as 7.
pub open spec fn y_index(y: YCoordinate) -> int {
    match y {
        YCoordinate::One => 0,
        YCoordinate::Two => 1,
        YCoordinate::Three => 2,
        YCoordinate::Four => 3,
        YCoordinate::Five => 4,
        YCoordinate::Six => 5,
        YCoordinate::Seven => 6,
        YCoordinate::Eight => 7,
    }
}

/// Each file mask is the A-file byte pattern shifted by the file's index, and
/// each rank mask is the first-rank byte shifted by the rank's index.
pub proof fn lemma_mask_shift_forms()
    ensures
        forall|x: XCoordinate| #![auto] x_mask(x) == 0x0101_0101_0101_0101u64 << ((7 - x_index(
            x,
        )) as u64),
        forall|y: YCoordinate| #![auto] y_mask(y) == 0x0000_0000_0000_00FFu64 << ((8 * y_index(
            y,
        )) as u64),
{
    assert(0x8080_8080_8080_8080u64 == 0x0101_0101_0101_0101u64 << 7u64
        && 0x4040_4040_4040_4040u64 == 0x0101_0101_0101_0101u64 << 6u64
        && 0x2020_2020_2020_2020u64 == 0x0101_0101_0101_0101u64 << 5u64
        && 0x1010_1010_1010_1010u64 == 0x0101_0101_0101_0101u64 << 4u64
        && 0x0808_0808_0808_0808u64 == 0x0101_0101_0101_0101u64 << 3u64
        && 0x0404_0404_0404_0404u64 == 0x0101_0101_0101_0101u64 << 2u64
        && 0x0202_0202_0202_0202u64 == 0x0101_0101_0101_0101u64 << 1u64
        && 0x0101_0101_0101_0101u64 == 0x0101_0101_0101_0101u64 << 0u64
        && 0x0000_0000_0000_00FFu64 == 0x0000_0000_0000_00FFu64 << 0u64
        && 0x0000_0000_0000_FF00u64 == 0x0000_0000_0000_00FFu64 << 8u64
        && 0x0000_0000_00FF_0000u64 == 0x0000_0000_0000_00FFu64 << 16u64
        && 0x0000_0000_FF00_0000u64 == 0x0000_0000_0000_00FFu64 << 24u64
        && 0x0000_00FF_0000_0000u64 == 0x0000_0000_0000_00FFu64 << 32u64
        && 0x0000_FF00_0000_0000u64 == 0x0000_0000_0000_00FFu64 << 40u64
        && 0x00FF_0000_0000_0000u64 == 0x0000_0000_0000_00FFu64 << 48u64
        && 0xFF00_0000_0000_0000u64 == 0x0000_0000_0000_00FFu64 << 56u64) by (bit_vector);
}

impl XCoordinate {
    /// The one-character string slice naming this file.
    pub fn to_letter_str(self) -> (r: &'static str)
        ensures
            r@ == seq![x_char(self)],
    {
        match self {
            XCoordinate::A => {
                proof {
                    reveal_strlit("a");
                    assert("a"@ =~= seq!['a']);
                }
                "a"
            },
            XCoordinate::B => {
                proof {
                    reveal_strlit("b");
                    assert("b"@ =~= seq!['b']);
                }
                "b"
            },
            XCoordinate::C => {
                proof {
                    reveal_strlit("c");
                    assert("c"@ =~= seq!['c']);
                }
                "c"
            },
            XCoordinate::D => {
                proof {
                    reveal_strlit("d");
                    assert("d"@ =~= seq!['d']);
                }
                "d"
            },
            XCoordinate::E => {
                proof {
                    reveal_strlit("e");
                    assert("e"@ =~= seq!['e']);
                }
                "e"
            },
            XCoordinate::F => {
                proof {
                    reveal_strlit("f");
                    assert("f"@ =~= seq!['f']);
                }
                "f"
            },
            XCoordinate::G => {
                proof {
                    reveal_strlit("g");
                    assert("g"@ =~= seq!['g']);
                }
                "g"
            },
            XCoordinate::H => {
                proof {
                    reveal_strlit("h");
                    assert("h"@ =~= seq!['h']);
                }
                "h"
            },
        }
    }
}

impl YCoordinate {
    /// The one-character string slice naming this rank.
    pub fn to_digit_str(self) -> (r: &'static str)
        ensures
            r@ == seq![y_char(self)],
    {
        match self {
            YCoordinate::One => {
                proof {
                    reveal_strlit("1");
                    assert("1"@ =~= seq!['1']);
                }
                "1"
            },
            YCoordinate::Two => {
                proof {
                    reveal_strlit("2");
                    assert("2"@ =~= seq!['2']);
                }
                "2"
            },
            YCoordinate::Three => {
                proof {
                    reveal_strlit("3");
                    assert("3"@ =~= seq!['3']);
                }
                "3"
            },
            YCoordinate::Four => {
                proof {
                    reveal_strlit("4");
                    assert("4"@ =~= seq!['4']);
                }
                "4"
            },
            YCoordinate::Five => {
                proof {
                    reveal_strlit("5");
                    assert("5"@ =~= seq!['5']);
                }
                "5"
            },
            YCoordinate::Six => {
                proof {
                    reveal_strlit("6");
                    assert("6"@ =~= seq!['6']);
                }
                "6"
            },
            YCoordinate::Seven => {
                proof {
                    reveal_strlit("7");
                    assert("7"@ =~= seq!['7']);
                }
                "7"
            },
            YCoordinate::Eight => {
                proof {
                    reveal_strlit("8");
                    assert("8"@ =~= seq!['8']);
                }
                "8"
            },
        }
    }
}

} // verus!
