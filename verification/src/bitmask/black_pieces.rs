use vstd::prelude::*;

use crate::bitmask::generic::Bitmask;
use crate::chess_state::chess_pieces::BlackBishops;
use crate::chess_state::chess_pieces::BlackKings;
use crate::chess_state::chess_pieces::BlackKnights;
use crate::chess_state::chess_pieces::BlackPawns;
use crate::chess_state::chess_pieces::BlackPieces;
use crate::chess_state::chess_pieces::BlackQueens;
use crate::chess_state::chess_pieces::BlackRooks;

verus! {

/// Marker trait of the mask tags naming black pieces.
pub trait AreBlackPieces {

}

impl AreBlackPieces for BlackPawns {

}

impl AreBlackPieces for BlackKnights {

}

impl AreBlackPieces for BlackBishops {

}

impl AreBlackPieces for BlackRooks {

}

impl AreBlackPieces for BlackQueens {

}

impl AreBlackPieces for BlackKings {

}

impl<T: AreBlackPieces> Bitmask<T> {
    /// The same bits, relabelled as a mask over the black pieces.
    pub fn to_black_pieces(self) -> (r: Bitmask<BlackPieces>)
        ensures
            r.mask == self.mask,
    {
        Bitmask::from_u64(self.mask)
    }
}

/// Bit operations that combine masks of black piece classes into a mask over
/// all black pieces.
pub trait BitOpsForBlackPieces<T: AreBlackPieces>: Sized {
    fn bitor_black_pieces(self, rhs: Bitmask<T>) -> Bitmask<BlackPieces>;

    fn bitand_black_pieces(self, rhs: Bitmask<T>) -> Bitmask<BlackPieces>;
}

impl<T: AreBlackPieces, U: AreBlackPieces> BitOpsForBlackPieces<T> for Bitmask<U> {
    fn bitor_black_pieces(self, rhs: Bitmask<T>) -> (r: Bitmask<BlackPieces>)
        ensures
            r.mask == self.mask | rhs.mask,
    {
        self.to_black_pieces().bitor(rhs.to_black_pieces())
    }

    fn bitand_black_pieces(self, rhs: Bitmask<T>) -> (r: Bitmask<BlackPieces>)
        ensures
            r.mask == self.mask & rhs.mask,
    {
        self.to_black_pieces().bitand(rhs.to_black_pieces())
    }
}

} // verus!
