use vstd::prelude::*;

use crate::chess_state::chess_pieces::PieceEnum;
use crate::chess_state::coordinate_point::CoordinatePosition;
use crate::chess_state::coordinate_point::lemma_square_key;
use crate::chess_state::coordinate_point::square_key;
use crate::shared::single_bit_bitmask_to_u8;

verus! {

/// The way a board insertion can be refused.
#[derive(Debug)]
pub enum BoardHashMapError {
    InsertedIntoFilledBoardPositionWithNoReplace(CoordinatePosition, PieceEnum),
}

/// True when some entry of `s` carries the key `key`.
pub open spec fn has_key(s: Seq<(u8, PieceEnum)>, key: u8) -> bool {
    exists|i: int| 0 <= i < s.len() && (#[trigger] s[i]).0 == key
}

/// A square-to-piece table: each occupied square's key paired with the piece
/// standing on it, in insertion order.
pub struct BoardHashMap {
    entries: Vec<(u8, PieceEnum)>,
}

impl BoardHashMap {
    /// The entries of the table, in insertion order.
    pub closed spec fn view(&self) -> Seq<(u8, PieceEnum)> {
        self.entries@
    }

    /// Each key appears at most once, and every key is a valid bit position.
    pub open spec fn wf(&self) -> bool {
        &&& forall|i: int, j: int|
            0 <= i < j < self@.len() ==> (#[trigger] self@[i]).0 != (#[trigger] self@[j]).0
        &&& forall|i: int| 0 <= i < self@.len() ==> (#[trigger] self@[i]).0 < 64
    }

    /// An empty board table.
    pub fn new() -> (r: Self)
        ensures
            r@ =~= Seq::<(u8, PieceEnum)>::empty(),
            r.wf(),
    {
        Self { entries: Vec::new() }
    }

    /// Whether the table holds no piece at all.
    pub fn is_empty(&self) -> (r: bool)
        ensures
            r == (self@.len() == 0),
    {
        self.entries.len() == 0
    }

    /// Places `piece` on `point`. A piece already standing there is kept and
    /// reported as an error unless the `replace` flag is set, in which case it
    /// is overwritten in place.
    pub fn insert(&mut self, point: CoordinatePosition, piece: PieceEnum, replace: bool) -> (r:
        Result<(), BoardHashMapError>)
        requires
            old(self).wf(),
        ensures
            final (self).wf(),
            !has_key(old(self)@, square_key(point)) ==> r is Ok && final (self)@ == old(
                self,
            )@.push((square_key(point), piece)),
            has_key(old(self)@, square_key(point)) && replace ==> r is Ok && final (
            self)@.len() == old(self)@.len() && (forall|i: int|
                0 <= i < old(self)@.len() && (#[trigger] old(self)@[i]).0 != square_key(point)
                    ==> final (self)@[i] == old(self)@[i]) && (forall|i: int|
                0 <= i < old(self)@.len() && (#[trigger] old(self)@[i]).0 == square_key(point)
                    ==> final (self)@[i] == (square_key(point), piece)),
            has_key(old(self)@, square_key(point)) && !replace ==> final (self)@ == old(self)@ && (
            exists|i: int|
                0 <= i < old(self)@.len() && (#[trigger] old(self)@[i]).0 == square_key(point) && r
                    == Err::<(), BoardHashMapError>(
                    BoardHashMapError::InsertedIntoFilledBoardPositionWithNoReplace(
                        point,
                        old(self)@[i].1,
                    ),
                )),
    {
        proof {
            lemma_square_key(point);
        }
        let key = single_bit_bitmask_to_u8(&point.to_bitmask());
        let mut idx: usize = 0;
        let mut found: bool = false;
        while idx < self.entries.len() && !found
            invariant
                idx <= self.entries.len(),
                key == square_key(point),
                old(self).wf(),
                self@ == old(self)@,
                !found ==> forall|i: int| 0 <= i < idx ==> (#[trigger] self.entries@[i]).0 != key,
                found ==> idx < self.entries.len() && self.entries@[idx as int].0 == key,
            decreases self.entries.len() - idx + (if found {
                0int
            } else {
                1int
            }),
        {
            if self.entries[idx].0 == key {
                found = true;
            } else {
                idx = idx + 1;
            }
        }
        if !found {
            self.entries.push((key, piece));
            return Ok(());
        }
        if replace {
            self.entries.set(idx, (key, piece));
            Ok(())
        } else {
            Err(BoardHashMapError::InsertedIntoFilledBoardPositionWithNoReplace(
                point,
                self.entries[idx].1,
            ))
        }
    }

    /// Returns all the positions containing a piece and the piece each one
    /// contains, as a vector of pairs in insertion order.
    pub fn to_iter(&self) -> (r: Vec<(CoordinatePosition, PieceEnum)>)
        requires
            self.wf(),
        ensures
            r@.len() == self@.len(),
            forall|t: int|
                0 <= t < r@.len() ==> (#[trigger] r@[t]).1 == self@[t].1 && r@[t].0.as_mask() == (
                1u64 << (self@[t].0 as u64)),
    {
        let mut output: Vec<(CoordinatePosition, PieceEnum)> = Vec::new();
        let mut idx: usize = 0;
        while idx < self.entries.len()
            invariant
                self.wf(),
                idx <= self@.len(),
                output@.len() == idx,
                forall|t: int|
                    0 <= t < idx ==> (#[trigger] output@[t]).1 == self@[t].1
                        && output@[t].0.as_mask() == (1u64 << (self@[t].0 as u64)),
            decreases self@.len() - idx,
        {
            let key = self.entries[idx].0;
            let mask = 1u64 << key;
            proof {
                assert(key < 64 && (key as u64) < 64);
                assert(crate::shared::is_single_bit(mask));
            }
            let coord = match CoordinatePosition::from_bitmask(mask) {
                Ok(c) => c,
                Err(_) => {
                    proof {
                        assert(false);
                    }
                    CoordinatePosition {
                        x: crate::chess_state::coordinates::XCoordinate::A,
                        y: crate::chess_state::coordinates::YCoordinate::One,
                    }
                },
            };
            proof {
                crate::chess_state::coordinate_point::lemma_mask_square_round_trip(mask);
            }
            output.push((coord, self.entries[idx].1));
            idx = idx + 1;
        }
        output
    }

    /// Allows querying an individual square for the piece standing on it.
    pub fn get(&self, position: CoordinatePosition) -> (r: Option<&PieceEnum>)
        ensures
            match r {
                Some(p) => exists|i: int|
                    0 <= i < self@.len() && (#[trigger] self@[i]).0 == square_key(position)
                        && self@[i].1 == *p,
                None => !has_key(self@, square_key(position)),
            },
    {
        proof {
            lemma_square_key(position);
        }
        let key = single_bit_bitmask_to_u8(&position.to_bitmask());
        let mut idx: usize = 0;
        while idx < self.entries.len()
            invariant
                idx <= self@.len(),
                key == square_key(position),
                forall|i: int| 0 <= i < idx ==> (#[trigger] self.entries@[i]).0 != key,
            decreases self@.len() - idx,
        {
            if self.entries[idx].0 == key {
                proof {
                    assert(self@[idx as int].0 == square_key(position));
                }
                return Some(&self.entries[idx].1);
            }
            idx = idx + 1;
        }
        None
    }
}

} // verus!
