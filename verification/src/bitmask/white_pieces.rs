use vstd::prelude::*;

use crate::bitmask::generic::Bitmask;
use crate::chess_state::chess_pieces::WhiteBishops;
use crate::chess_state::chess_pieces::WhiteKings;
use crate::chess_state::chess_pieces::WhiteKnights;
use crate::chess_state::chess_pieces::WhitePawns;
use crate::chess_state::chess_pieces::WhitePieces;
use crate::chess_state::chess_pieces::WhiteQueens;
use crate::chess_state::chess_pieces::WhiteRooks;

verus! {

/// Marker trait of the mask tags naming white pieces.
pub trait AreWhitePieces {

}

impl AreWhitePieces for WhitePawns {

}

impl AreWhitePieces for WhiteKnights {

}

impl AreWhitePieces for WhiteBishops {

}

impl AreWhitePieces for WhiteRooks {

}

impl AreWhitePieces for WhiteQueens {

}

impl AreWhitePieces for WhiteKings {

}

impl<T: AreWhitePieces> Bitmask<T> {
    /// The same bits, relabelled as a mask over the white pieces.
    pub fn to_white_pieces(self) -> (r: Bitmask<WhitePieces>)
        ensures
            r.mask == self.mask,
    {
        Bitmask::from_u64(self.mask)
    }
}

/// Bit operations that combine masks of white piece classes into a mask over
/// all white pieces.
pub trait BitOpsForWhitePieces<T: AreWhitePieces>: Sized {
    fn bitor_white_pieces(self, rhs: Bitmask<T>) -> Bitmask<WhitePieces>;

    fn bitand_white_pieces(self, rhs: Bitmask<T>) -> Bitmask<WhitePieces>;
}

impl<T: AreWhitePieces, U: AreWhitePieces> BitOpsForWhitePieces<T> for Bitmask<U> {
    fn bitor_white_pieces(self, rhs: Bitmask<T>) -> (r: Bitmask<WhitePieces>)
        ensures
            r.mask == self.mask | rhs.mask,
    {
        self.to_white_pieces().bitor(rhs.to_white_pieces())
    }

    fn bitand_white_pieces(self, rhs: Bitmask<T>) -> (r: Bitmask<WhitePieces>)
        ensures
            r.mask == self.mask & rhs.mask,
    {
        self.to_white_pieces().bitand(rhs.to_white_pieces())
    }
}

} // verus!
