use vstd::prelude::*;

use crate::bitmask::generic::Bitmask;
use crate::chess_state::chess_pieces::BlackBishops;
use crate::chess_state::chess_pieces::BlackKings;
use crate::chess_state::chess_pieces::BlackKnights;
use crate::chess_state::chess_pieces::BlackPawns;
use crate::chess_state::chess_pieces::BlackPieces;
use crate::chess_state::chess_pieces::BlackQueens;
use crate::chess_state::chess_pieces::BlackRooks;
use crate::chess_state::chess_pieces::Pieces;
use crate::chess_state::chess_pieces::WhiteBishops;
use crate::chess_state::chess_pieces::WhiteKings;
use crate::chess_state::chess_pieces::WhiteKnights;
use crate::chess_state::chess_pieces::WhitePawns;
use crate::chess_state::chess_pieces::WhitePieces;
use crate::chess_state::chess_pieces::WhiteQueens;
use crate::chess_state::chess_pieces::WhiteRooks;

verus! {

/// Marker trait of every per-class and per-colour mask tag.
pub trait ArePieces {

}

impl ArePieces for WhitePieces {

}

impl ArePieces for WhitePawns {

}

impl ArePieces for WhiteKnights {

}

impl ArePieces for WhiteBishops {

}

impl ArePieces for WhiteRooks {

}

impl ArePieces for WhiteQueens {

}

impl ArePieces for WhiteKings {

}

impl ArePieces for BlackPieces {

}

impl ArePieces for BlackPawns {

}

impl ArePieces for BlackKnights {

}

impl ArePieces for BlackBishops {

}

impl ArePieces for BlackRooks {

}

impl ArePieces for BlackQueens {

}

impl ArePieces for BlackKings {

}

impl<T: ArePieces> Bitmask<T> {
    /// The same bits, relabelled as a mask over all pieces.
    pub fn to_pieces(self) -> (r: Bitmask<Pieces>)
        ensures
            r.mask == self.mask,
    {
        Bitmask::from_u64(self.mask)
    }
}

/// Bit operations that combine masks of any piece classes into a mask over
/// all pieces.
pub trait BitOpsForPieces<T: ArePieces>: Sized {
    fn bitor_pieces(self, rhs: Bitmask<T>) -> Bitmask<Pieces>;

    fn bitand_pieces(self, rhs: Bitmask<T>) -> Bitmask<Pieces>;
}

impl<T: ArePieces, U: ArePieces> BitOpsForPieces<T> for Bitmask<U> {
    fn bitor_pieces(self, rhs: Bitmask<T>) -> (r: Bitmask<Pieces>)
        ensures
            r.mask == self.mask | rhs.mask,
    {
        self.to_pieces().bitor(rhs.to_pieces())
    }

    fn bitand_pieces(self, rhs: Bitmask<T>) -> (r: Bitmask<Pieces>)
        ensures
            r.mask == self.mask & rhs.mask,
    {
        self.to_pieces().bitand(rhs.to_pieces())
    }
}

} // verus!
