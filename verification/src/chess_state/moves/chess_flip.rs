use vstd::prelude::*;

verus! {

/// The board mirrored left-to-right: within every byte (rank) the bit order
/// is reversed, swapping the A and H files.
pub open spec fn flip_horizontal_spec(m: u64) -> u64 {
    let s1 = ((m >> 1) & 0x5555_5555_5555_5555u64) | ((m & 0x5555_5555_5555_5555u64) << 1);
    let s2 = ((s1 >> 2) & 0x3333_3333_3333_3333u64) | ((s1 & 0x3333_3333_3333_3333u64) << 2);
    ((s2 >> 4) & 0x0F0F_0F0F_0F0F_0F0Fu64) | ((s2 & 0x0F0F_0F0F_0F0F_0F0Fu64) << 4)
}

/// The board mirrored top-to-bottom: the byte (rank) order is reversed,
/// swapping the first and eighth ranks.
pub open spec fn flip_vertical_spec(m: u64) -> u64 {
    ((m & 0x0000_0000_0000_00FFu64) << 56) | ((m & 0x0000_0000_0000_FF00u64) << 40) | ((m
        & 0x0000_0000_00FF_0000u64) << 24) | ((m & 0x0000_0000_FF00_0000u64) << 8) | ((m
        & 0x0000_00FF_0000_0000u64) >> 8) | ((m & 0x0000_FF00_0000_0000u64) >> 24) | ((m
        & 0x00FF_0000_0000_0000u64) >> 40) | ((m & 0xFF00_0000_0000_0000u64) >> 56)
}

/// Mirrorings of a whole board position.
pub trait ChessFlip: Sized {
    fn flip_horizontal(self) -> Self;

    fn flip_vertical(self) -> Self;

    fn flip(self) -> Self;
}

impl ChessFlip for u64 {
    /// Mirrors the mask left-to-right.
    fn flip_horizontal(self) -> (r: u64)
        ensures
            r == flip_horizontal_spec(self),
    {
        let s1 = ((self >> 1) & 0x5555_5555_5555_5555u64) | ((self & 0x5555_5555_5555_5555u64)
            << 1);
        let s2 = ((s1 >> 2) & 0x3333_3333_3333_3333u64) | ((s1 & 0x3333_3333_3333_3333u64) << 2);
        ((s2 >> 4) & 0x0F0F_0F0F_0F0F_0F0Fu64) | ((s2 & 0x0F0F_0F0F_0F0F_0F0Fu64) << 4)
    }

    /// Mirrors the mask top-to-bottom.
    fn flip_vertical(self) -> (r: u64)
        ensures
            r == flip_vertical_spec(self),
    {
        ((self & 0x0000_0000_0000_00FFu64) << 56) | ((self & 0x0000_0000_0000_FF00u64) << 40) | ((
        self & 0x0000_0000_00FF_0000u64) << 24) | ((self & 0x0000_0000_FF00_0000u64) << 8) | ((self
            & 0x0000_00FF_0000_0000u64) >> 8) | ((self & 0x0000_FF00_0000_0000u64) >> 24) | ((self
            & 0x00FF_0000_0000_0000u64) >> 40) | ((self & 0xFF00_0000_0000_0000u64) >> 56)
    }

    /// Rotates the board a half turn: both mirrorings applied in turn.
    fn flip(self) -> (r: u64)
        ensures
            r == flip_vertical_spec(flip_horizontal_spec(self)),
    {
        self.flip_horizontal().flip_vertical()
    }
}


/// Each mirroring is an involution, and so is the full half-turn flip:
/// applying it twice restores every board.
pub proof fn lemma_flip_involution(m: u64)
    ensures
        flip_horizontal_spec(flip_horizontal_spec(m)) == m,
        flip_vertical_spec(flip_vertical_spec(m)) == m,
        flip_vertical_spec(flip_horizontal_spec(flip_vertical_spec(flip_horizontal_spec(m)))) == m,
{
    assert(flip_horizontal_spec(flip_horizontal_spec(m)) == m && flip_vertical_spec(
        flip_vertical_spec(m),
    ) == m && flip_vertical_spec(flip_horizontal_spec(flip_vertical_spec(flip_horizontal_spec(m))))
        == m) by (bit_vector);
}

} // verus!
