use vstd::prelude::*;

use crate::bitmask::generic::Bitmask;
use crate::chess_state::board_hash_map::BoardHashMap;
use crate::chess_state::chess_pieces::BlackBishops;
use crate::chess_state::chess_pieces::BlackKings;
use crate::chess_state::chess_pieces::BlackKnights;
use crate::chess_state::chess_pieces::BlackPawns;
use crate::chess_state::chess_pieces::BlackPieces;
use crate::chess_state::chess_pieces::BlackQueens;
use crate::chess_state::chess_pieces::BlackRooks;
use crate::chess_state::chess_pieces::PieceEnum;
use crate::chess_state::chess_pieces::Pieces;
use crate::chess_state::chess_pieces::WhiteBishops;
use crate::chess_state::chess_pieces::WhiteKings;
use crate::chess_state::chess_pieces::WhiteKnights;
use crate::chess_state::chess_pieces::WhitePawns;
use crate::chess_state::chess_pieces::WhitePieces;
use crate::chess_state::chess_pieces::WhiteQueens;
use crate::chess_state::chess_pieces::WhiteRooks;
use crate::chess_state::coordinates::XCoordinate;
use crate::chess_state::coordinates::YCoordinate;
use crate::chess_state::coordinates::x_mask;
use crate::chess_state::coordinates::y_mask;

verus! {

/// A chess position as twelve per-piece occupancy masks and the three
/// aggregates derived from them.
pub struct BoardBitmasks {
    pub all_pieces: Bitmask<Pieces>,
    pub white_pieces: Bitmask<WhitePieces>,
    pub white_pawns: Bitmask<WhitePawns>,
    pub white_knights: Bitmask<WhiteKnights>,
    pub white_bishops: Bitmask<WhiteBishops>,
    pub white_rooks: Bitmask<WhiteRooks>,
    pub white_queens: Bitmask<WhiteQueens>,
    pub white_kings: Bitmask<WhiteKings>,
    pub black_pieces: Bitmask<BlackPieces>,
    pub black_pawns: Bitmask<BlackPawns>,
    pub black_knights: Bitmask<BlackKnights>,
    pub black_bishops: Bitmask<BlackBishops>,
    pub black_rooks: Bitmask<BlackRooks>,
    pub black_queens: Bitmask<BlackQueens>,
    pub black_kings: Bitmask<BlackKings>,
}

/// The mask holding every white piece of `b`, as the union of the six white
/// per-piece masks.
pub open spec fn white_union(b: BoardBitmasks) -> u64 {
    b.white_pawns.mask | b.white_knights.mask | b.white_bishops.mask | b.white_rooks.mask
        | b.white_queens.mask | b.white_kings.mask
}

/// The mask holding every black piece of `b`.
pub open spec fn black_union(b: BoardBitmasks) -> u64 {
    b.black_pawns.mask | b.black_knights.mask | b.black_bishops.mask | b.black_rooks.mask
        | b.black_queens.mask | b.black_kings.mask
}

/// The aggregate masks agree with the per-piece masks they summarise, and the
/// two sides do not overlap.
pub open spec fn aggregates_consistent(b: BoardBitmasks) -> bool {
    &&& b.white_pieces.mask == white_union(b)
    &&& b.black_pieces.mask == black_union(b)
    &&& b.all_pieces.mask == b.white_pieces.mask | b.black_pieces.mask
    &&& b.white_pieces.mask & b.black_pieces.mask == 0
}

/// The squares of `entries` (given by bit position) that carry the piece `p`.
pub open spec fn piece_mask_of(entries: Seq<(u8, PieceEnum)>, p: PieceEnum) -> u64
    decreases entries.len(),
{
    if entries.len() == 0 {
        0u64
    } else {
        piece_mask_of(entries.drop_last(), p) | (if entries.last().1 == p {
            1u64 << (entries.last().0 as u64)
        } else {
            0u64
        })
    }
}


/// The bit-level facts the key-uniqueness argument rests on: membership in a
/// union, distinctness of single bits, and the bridge between shift-and-test
/// and mask-and-test.
proof fn lemma_bit_membership()
    ensures
        forall|a: u64, b: u64| ((#[trigger] (a | b)) == 0) <==> (a == 0 && b == 0),
        forall|k: u64, t: u64|
            k < 64 && t < 64 ==> ((#[trigger] ((1u64 << k) & (1u64 << t))) != 0 <==> k == t),
        forall|m: u64, j: u64| j < 64 ==> ((#[trigger] (m >> j)) & 1 == 1 <==> m & (1u64 << j)
            != 0),
        forall|a: u64, b: u64, c: u64|
            (#[trigger] ((a & b) & c)) != 0 ==> a & c != 0 && b & c != 0,
        forall|a: u64, b: u64, c: u64| #[trigger] ((a | b) & c) == (a & c) | (b & c),
{
    assert((forall|a: u64, b: u64| ((#[trigger] (a | b)) == 0) <==> (a == 0 && b == 0)) && (forall|
        k: u64,
        t: u64,
    | k < 64 && t < 64 ==> ((#[trigger] ((1u64 << k) & (1u64 << t))) != 0 <==> k == t)) && (forall|
        m: u64,
        j: u64,
    | j < 64 ==> ((#[trigger] (m >> j)) & 1 == 1 <==> m & (1u64 << j) != 0)) && (forall|
        a: u64,
        b: u64,
        c: u64,
    | (#[trigger] ((a & b) & c)) != 0 ==> a & c != 0 && b & c != 0) && (forall|
        a: u64,
        b: u64,
        c: u64,
    | #[trigger] ((a | b) & c) == (a & c) | (b & c))) by (bit_vector);
}

/// A square (given by bit position) lies in the mask collected for piece `p`
/// exactly when some entry assigns `p` to that square.
proof fn lemma_piece_mask_bits(entries: Seq<(u8, PieceEnum)>, p: PieceEnum, k: u64)
    requires
        k < 64,
        forall|i: int| 0 <= i < entries.len() ==> (#[trigger] entries[i]).0 < 64,
    ensures
        (piece_mask_of(entries, p) & (1u64 << k) != 0) <==> (exists|i: int|
            0 <= i < entries.len() && (#[trigger] entries[i]).0 == k && entries[i].1 == p),
    decreases entries.len(),
{
    lemma_bit_membership();
    crate::shared::lemma_meet(0, 1u64 << k);
    if entries.len() > 0 {
        lemma_piece_mask_bits(entries.drop_last(), p, k);
        let prev = piece_mask_of(entries.drop_last(), p);
        let added = if entries.last().1 == p {
            1u64 << (entries.last().0 as u64)
        } else {
            0u64
        };
        assert(piece_mask_of(entries, p) == prev | added);
        assert((prev | added) & (1u64 << k) == (prev & (1u64 << k)) | (added & (1u64 << k)));
        if piece_mask_of(entries, p) & (1u64 << k) != 0 {
            if added & (1u64 << k) != 0 {
                assert(entries.last().0 == k && entries.last().1 == p);
                assert(entries[entries.len() - 1].0 == k);
            } else {
                let i = choose|i: int|
                    0 <= i < entries.drop_last().len() && (#[trigger] entries.drop_last()[i]).0
                        == k && entries.drop_last()[i].1 == p;
                assert(entries[i].0 == k && entries[i].1 == p);
            }
        }
        if exists|i: int|
            0 <= i < entries.len() && (#[trigger] entries[i]).0 == k && entries[i].1 == p {
            let i = choose|i: int|
                0 <= i < entries.len() && (#[trigger] entries[i]).0 == k && entries[i].1 == p;
            if i == entries.len() - 1 {
                assert(added == 1u64 << k);
                assert(added & (1u64 << k) != 0);
            } else {
                assert(entries.drop_last()[i].0 == k && entries.drop_last()[i].1 == p);
                assert(prev & (1u64 << k) != 0);
            }
        }
    }
}

/// With every square assigned at most once, the white and black piece masks
/// collected from a table cannot overlap.
proof fn lemma_sides_disjoint(entries: Seq<(u8, PieceEnum)>)
    requires
        forall|i: int, j: int|
            0 <= i < j < entries.len() ==> (#[trigger] entries[i]).0 != (#[trigger] entries[j]).0,
        forall|i: int| 0 <= i < entries.len() ==> (#[trigger] entries[i]).0 < 64,
    ensures
        (piece_mask_of(entries, PieceEnum::WhitePawn) | piece_mask_of(entries, PieceEnum::WhiteKnight)
            | piece_mask_of(entries, PieceEnum::WhiteBishop) | piece_mask_of(
            entries,
            PieceEnum::WhiteRook,
        ) | piece_mask_of(entries, PieceEnum::WhiteQueen) | piece_mask_of(
            entries,
            PieceEnum::WhiteKing,
        )) & (piece_mask_of(entries, PieceEnum::BlackPawn) | piece_mask_of(
            entries,
            PieceEnum::BlackKnight,
        ) | piece_mask_of(entries, PieceEnum::BlackBishop) | piece_mask_of(
            entries,
            PieceEnum::BlackRook,
        ) | piece_mask_of(entries, PieceEnum::BlackQueen) | piece_mask_of(
            entries,
            PieceEnum::BlackKing,
        )) == 0,
{
    lemma_bit_membership();
    let w = piece_mask_of(entries, PieceEnum::WhitePawn) | piece_mask_of(
        entries,
        PieceEnum::WhiteKnight,
    ) | piece_mask_of(entries, PieceEnum::WhiteBishop) | piece_mask_of(
        entries,
        PieceEnum::WhiteRook,
    ) | piece_mask_of(entries, PieceEnum::WhiteQueen) | piece_mask_of(
        entries,
        PieceEnum::WhiteKing,
    );
    let b = piece_mask_of(entries, PieceEnum::BlackPawn) | piece_mask_of(
        entries,
        PieceEnum::BlackKnight,
    ) | piece_mask_of(entries, PieceEnum::BlackBishop) | piece_mask_of(
        entries,
        PieceEnum::BlackRook,
    ) | piece_mask_of(entries, PieceEnum::BlackQueen) | piece_mask_of(
        entries,
        PieceEnum::BlackKing,
    );
    if w & b != 0 {
        vstd::std_specs::bits::axiom_u64_trailing_zeros(w & b);
        let k = vstd::std_specs::bits::u64_trailing_zeros(w & b) as u64;
        assert(k < 64);
        assert(((w & b) >> k) & 1 == 1);
        assert((w & b) & (1u64 << k) != 0);
        assert(w & (1u64 << k) != 0 && b & (1u64 << k) != 0);
        let bit = 1u64 << k;
        assert(piece_mask_of(entries, PieceEnum::WhitePawn) & bit != 0 || piece_mask_of(
            entries,
            PieceEnum::WhiteKnight,
        ) & bit != 0 || piece_mask_of(entries, PieceEnum::WhiteBishop) & bit != 0
            || piece_mask_of(entries, PieceEnum::WhiteRook) & bit != 0 || piece_mask_of(
            entries,
            PieceEnum::WhiteQueen,
        ) & bit != 0 || piece_mask_of(entries, PieceEnum::WhiteKing) & bit != 0);
        assert(piece_mask_of(entries, PieceEnum::BlackPawn) & bit != 0 || piece_mask_of(
            entries,
            PieceEnum::BlackKnight,
        ) & bit != 0 || piece_mask_of(entries, PieceEnum::BlackBishop) & bit != 0
            || piece_mask_of(entries, PieceEnum::BlackRook) & bit != 0 || piece_mask_of(
            entries,
            PieceEnum::BlackQueen,
        ) & bit != 0 || piece_mask_of(entries, PieceEnum::BlackKing) & bit != 0);
        lemma_piece_mask_bits(entries, PieceEnum::WhitePawn, k);
        lemma_piece_mask_bits(entries, PieceEnum::WhiteKnight, k);
        lemma_piece_mask_bits(entries, PieceEnum::WhiteBishop, k);
        lemma_piece_mask_bits(entries, PieceEnum::WhiteRook, k);
        lemma_piece_mask_bits(entries, PieceEnum::WhiteQueen, k);
        lemma_piece_mask_bits(entries, PieceEnum::WhiteKing, k);
        lemma_piece_mask_bits(entries, PieceEnum::BlackPawn, k);
        lemma_piece_mask_bits(entries, PieceEnum::BlackKnight, k);
        lemma_piece_mask_bits(entries, PieceEnum::BlackBishop, k);
        lemma_piece_mask_bits(entries, PieceEnum::BlackRook, k);
        lemma_piece_mask_bits(entries, PieceEnum::BlackQueen, k);
        lemma_piece_mask_bits(entries, PieceEnum::BlackKing, k);
        let i1 = choose|i: int|
            0 <= i < entries.len() && (#[trigger] entries[i]).0 == k && is_white_class(
                entries[i].1,
            );
        let i2 = choose|i: int|
            0 <= i < entries.len() && (#[trigger] entries[i]).0 == k && is_black_class(
                entries[i].1,
            );
        assert(false);
    }
}

/// Whether a piece class belongs to the white side.
pub open spec fn is_white_class(p: PieceEnum) -> bool {
    match p {
        PieceEnum::WhitePawn | PieceEnum::WhiteKnight | PieceEnum::WhiteBishop
            | PieceEnum::WhiteRook | PieceEnum::WhiteQueen | PieceEnum::WhiteKing => true,
        _ => false,
    }
}

/// Whether a piece class belongs to the black side.
pub open spec fn is_black_class(p: PieceEnum) -> bool {
    !is_white_class(p)
}

impl BoardBitmasks {
    /// Initialises a new, empty, chess board and the relevant bitmasks.
    pub fn new() -> (r: Self)
        ensures
            r.all_pieces.mask == 0,
            r.white_pieces.mask == 0,
            r.white_pawns.mask == 0,
            r.white_knights.mask == 0,
            r.white_bishops.mask == 0,
            r.white_rooks.mask == 0,
            r.white_queens.mask == 0,
            r.white_kings.mask == 0,
            r.black_pieces.mask == 0,
            r.black_pawns.mask == 0,
            r.black_knights.mask == 0,
            r.black_bishops.mask == 0,
            r.black_rooks.mask == 0,
            r.black_queens.mask == 0,
            r.black_kings.mask == 0,
    {
        Self {
            all_pieces: Bitmask::from_u64(0),
            white_pieces: Bitmask::from_u64(0),
            white_pawns: Bitmask::from_u64(0),
            white_knights: Bitmask::from_u64(0),
            white_bishops: Bitmask::from_u64(0),
            white_rooks: Bitmask::from_u64(0),
            white_queens: Bitmask::from_u64(0),
            white_kings: Bitmask::from_u64(0),
            black_pieces: Bitmask::from_u64(0),
            black_pawns: Bitmask::from_u64(0),
            black_knights: Bitmask::from_u64(0),
            black_bishops: Bitmask::from_u64(0),
            black_rooks: Bitmask::from_u64(0),
            black_queens: Bitmask::from_u64(0),
            black_kings: Bitmask::from_u64(0),
        }
    }

    /// Initialises a chess board in the starting position.
    pub fn default() -> (r: Self)
        ensures
            r.all_pieces.mask == y_mask(YCoordinate::One) | y_mask(YCoordinate::Two) | y_mask(
                YCoordinate::Seven,
            ) | y_mask(YCoordinate::Eight),
            r.white_pieces.mask == y_mask(YCoordinate::One) | y_mask(YCoordinate::Two),
            r.white_pawns.mask == y_mask(YCoordinate::Two),
            r.white_knights.mask == (x_mask(XCoordinate::B) & y_mask(YCoordinate::One)) | (x_mask(
                XCoordinate::G,
            ) & y_mask(YCoordinate::One)),
            r.white_bishops.mask == (x_mask(XCoordinate::C) & y_mask(YCoordinate::One)) | (x_mask(
                XCoordinate::F,
            ) & y_mask(YCoordinate::One)),
            r.white_rooks.mask == (x_mask(XCoordinate::A) & y_mask(YCoordinate::One)) | (x_mask(
                XCoordinate::H,
            ) & y_mask(YCoordinate::One)),
            r.white_queens.mask == x_mask(XCoordinate::D) & y_mask(YCoordinate::One),
            r.white_kings.mask == x_mask(XCoordinate::E) & y_mask(YCoordinate::One),
            r.black_pieces.mask == y_mask(YCoordinate::Seven) | y_mask(YCoordinate::Eight),
            r.black_pawns.mask == y_mask(YCoordinate::Seven),
            r.black_knights.mask == (x_mask(XCoordinate::B) & y_mask(YCoordinate::Eight)) | (
            x_mask(XCoordinate::G) & y_mask(YCoordinate::Eight)),
            r.black_bishops.mask == (x_mask(XCoordinate::C) & y_mask(YCoordinate::Eight)) | (
            x_mask(XCoordinate::F) & y_mask(YCoordinate::Eight)),
            r.black_rooks.mask == (x_mask(XCoordinate::A) & y_mask(YCoordinate::Eight)) | (x_mask(
                XCoordinate::H,
            ) & y_mask(YCoordinate::Eight)),
            r.black_queens.mask == x_mask(XCoordinate::D) & y_mask(YCoordinate::Eight),
            r.black_kings.mask == x_mask(XCoordinate::E) & y_mask(YCoordinate::Eight),
    {
        let one = YCoordinate::One.to_mask();
        let two = YCoordinate::Two.to_mask();
        let seven = YCoordinate::Seven.to_mask();
        let eight = YCoordinate::Eight.to_mask();
        let a = XCoordinate::A.to_mask();
        let b = XCoordinate::B.to_mask();
        let c = XCoordinate::C.to_mask();
        let d = XCoordinate::D.to_mask();
        let e = XCoordinate::E.to_mask();
        let f = XCoordinate::F.to_mask();
        let g = XCoordinate::G.to_mask();
        let h = XCoordinate::H.to_mask();
        Self {
            all_pieces: Bitmask::from_u64(one | two | seven | eight),
            white_pieces: Bitmask::from_u64(one | two),
            white_pawns: Bitmask::from_u64(two),
            white_knights: Bitmask::from_u64((b & one) | (g & one)),
            white_bishops: Bitmask::from_u64((c & one) | (f & one)),
            white_rooks: Bitmask::from_u64((a & one) | (h & one)),
            white_queens: Bitmask::from_u64(d & one),
            white_kings: Bitmask::from_u64(e & one),
            black_pieces: Bitmask::from_u64(seven | eight),
            black_pawns: Bitmask::from_u64(seven),
            black_knights: Bitmask::from_u64((b & eight) | (g & eight)),
            black_bishops: Bitmask::from_u64((c & eight) | (f & eight)),
            black_rooks: Bitmask::from_u64((a & eight) | (h & eight)),
            black_queens: Bitmask::from_u64(d & eight),
            black_kings: Bitmask::from_u64(e & eight),
        }
    }

    /// Creates a BoardBitmasks object from a BoardHashMap, going from
    /// location-to-piece to piece-to-location, with the aggregate masks
    /// computed along the way.
    pub fn from_board_hash_map(map: &BoardHashMap) -> (r: Self)
        requires
            map.wf(),
        ensures
            r.white_pawns.mask == piece_mask_of(map@, PieceEnum::WhitePawn),
            r.white_knights.mask == piece_mask_of(map@, PieceEnum::WhiteKnight),
            r.white_bishops.mask == piece_mask_of(map@, PieceEnum::WhiteBishop),
            r.white_rooks.mask == piece_mask_of(map@, PieceEnum::WhiteRook),
            r.white_queens.mask == piece_mask_of(map@, PieceEnum::WhiteQueen),
            r.white_kings.mask == piece_mask_of(map@, PieceEnum::WhiteKing),
            r.black_pawns.mask == piece_mask_of(map@, PieceEnum::BlackPawn),
            r.black_knights.mask == piece_mask_of(map@, PieceEnum::BlackKnight),
            r.black_bishops.mask == piece_mask_of(map@, PieceEnum::BlackBishop),
            r.black_rooks.mask == piece_mask_of(map@, PieceEnum::BlackRook),
            r.black_queens.mask == piece_mask_of(map@, PieceEnum::BlackQueen),
            r.black_kings.mask == piece_mask_of(map@, PieceEnum::BlackKing),
            r.white_pieces.mask == white_union(r),
            r.black_pieces.mask == black_union(r),
            r.all_pieces.mask == r.white_pieces.mask | r.black_pieces.mask,
            r.white_pieces.mask & r.black_pieces.mask == 0,
    {
        let entries = map.to_iter();
        let ghost m = map@;
        let mut output = Self::new();
        proof {
            crate::shared::lemma_or_unit();
            assert(m.take(0) =~= Seq::<(u8, PieceEnum)>::empty());
        }
        let mut idx: usize = 0;
        while idx < entries.len()
            invariant
                entries@.len() == m.len(),
                forall|t: int|
                    0 <= t < entries@.len() ==> (#[trigger] entries@[t]).1 == m[t].1
                        && entries@[t].0.as_mask() == (1u64 << (m[t].0 as u64)),
                idx <= entries@.len(),
                output.white_pawns.mask == piece_mask_of(m.take(idx as int), PieceEnum::WhitePawn),
                output.white_knights.mask == piece_mask_of(
                    m.take(idx as int),
                    PieceEnum::WhiteKnight,
                ),
                output.white_bishops.mask == piece_mask_of(
                    m.take(idx as int),
                    PieceEnum::WhiteBishop,
                ),
                output.white_rooks.mask == piece_mask_of(m.take(idx as int), PieceEnum::WhiteRook),
                output.white_queens.mask == piece_mask_of(
                    m.take(idx as int),
                    PieceEnum::WhiteQueen,
                ),
                output.white_kings.mask == piece_mask_of(m.take(idx as int), PieceEnum::WhiteKing),
                output.black_pawns.mask == piece_mask_of(m.take(idx as int), PieceEnum::BlackPawn),
                output.black_knights.mask == piece_mask_of(
                    m.take(idx as int),
                    PieceEnum::BlackKnight,
                ),
                output.black_bishops.mask == piece_mask_of(
                    m.take(idx as int),
                    PieceEnum::BlackBishop,
                ),
                output.black_rooks.mask == piece_mask_of(m.take(idx as int), PieceEnum::BlackRook),
                output.black_queens.mask == piece_mask_of(
                    m.take(idx as int),
                    PieceEnum::BlackQueen,
                ),
                output.black_kings.mask == piece_mask_of(m.take(idx as int), PieceEnum::BlackKing),
                output.white_pieces.mask == white_union(output),
                output.black_pieces.mask == black_union(output),
                output.all_pieces.mask == output.white_pieces.mask | output.black_pieces.mask,
            decreases entries@.len() - idx,
        {
            let (coord, piece) = entries[idx];
            let bm = coord.to_bitmask();
            proof {
                crate::shared::lemma_or_unit();
                assert(m.take(idx as int + 1).drop_last() =~= m.take(idx as int));
                assert(m.take(idx as int + 1).last() == m[idx as int]);
                lemma_or_positions(
                    output.white_pawns.mask,
                    output.white_knights.mask,
                    output.white_bishops.mask,
                    output.white_rooks.mask,
                    output.white_queens.mask,
                    output.white_kings.mask,
                    bm,
                );
                lemma_or_positions(
                    output.black_pawns.mask,
                    output.black_knights.mask,
                    output.black_bishops.mask,
                    output.black_rooks.mask,
                    output.black_queens.mask,
                    output.black_kings.mask,
                    bm,
                );
                lemma_or_aggregate(output.white_pieces.mask, output.black_pieces.mask, bm);
            }
            match piece {
                PieceEnum::WhitePawn => {
                    let bitmask: Bitmask<WhitePawns> = Bitmask::from_u64(bm);
                    output.white_pawns.bitor_assign(bitmask);
                    output.white_pieces.bitor_assign(bitmask.to_white_pieces());
                    output.all_pieces.bitor_assign(bitmask.to_pieces());
                },
                PieceEnum::WhiteKnight => {
                    let bitmask: Bitmask<WhiteKnights> = Bitmask::from_u64(bm);
                    output.white_knights.bitor_assign(bitmask);
                    output.white_pieces.bitor_assign(bitmask.to_white_pieces());
                    output.all_pieces.bitor_assign(bitmask.to_pieces());
                },
                PieceEnum::WhiteBishop => {
                    let bitmask: Bitmask<WhiteBishops> = Bitmask::from_u64(bm);
                    output.white_bishops.bitor_assign(bitmask);
                    output.white_pieces.bitor_assign(bitmask.to_white_pieces());
                    output.all_pieces.bitor_assign(bitmask.to_pieces());
                },
                PieceEnum::WhiteRook => {
                    let bitmask: Bitmask<WhiteRooks> = Bitmask::from_u64(bm);
                    output.white_rooks.bitor_assign(bitmask);
                    output.white_pieces.bitor_assign(bitmask.to_white_pieces());
                    output.all_pieces.bitor_assign(bitmask.to_pieces());
                },
                PieceEnum::WhiteQueen => {
                    let bitmask: Bitmask<WhiteQueens> = Bitmask::from_u64(bm);
                    output.white_queens.bitor_assign(bitmask);
                    output.white_pieces.bitor_assign(bitmask.to_white_pieces());
                    output.all_pieces.bitor_assign(bitmask.to_pieces());
                },
                PieceEnum::WhiteKing => {
                    let bitmask: Bitmask<WhiteKings> = Bitmask::from_u64(bm);
                    output.white_kings.bitor_assign(bitmask);
                    output.white_pieces.bitor_assign(bitmask.to_white_pieces());
                    output.all_pieces.bitor_assign(bitmask.to_pieces());
                },
                PieceEnum::BlackPawn => {
                    let bitmask: Bitmask<BlackPawns> = Bitmask::from_u64(bm);
                    output.black_pawns.bitor_assign(bitmask);
                    output.black_pieces.bitor_assign(bitmask.to_black_pieces());
                    output.all_pieces.bitor_assign(bitmask.to_pieces());
                },
                PieceEnum::BlackKnight => {
                    let bitmask: Bitmask<BlackKnights> = Bitmask::from_u64(bm);
                    output.black_knights.bitor_assign(bitmask);
                    output.black_pieces.bitor_assign(bitmask.to_black_pieces());
                    output.all_pieces.bitor_assign(bitmask.to_pieces());
                },
                PieceEnum::BlackBishop => {
                    let bitmask: Bitmask<BlackBishops> = Bitmask::from_u64(bm);
                    output.black_bishops.bitor_assign(bitmask);
                    output.black_pieces.bitor_assign(bitmask.to_black_pieces());
                    output.all_pieces.bitor_assign(bitmask.to_pieces());
                },
                PieceEnum::BlackRook => {
                    let bitmask: Bitmask<BlackRooks> = Bitmask::from_u64(bm);
                    output.black_rooks.bitor_assign(bitmask);
                    output.black_pieces.bitor_assign(bitmask.to_black_pieces());
                    output.all_pieces.bitor_assign(bitmask.to_pieces());
                },
                PieceEnum::BlackQueen => {
                    let bitmask: Bitmask<BlackQueens> = Bitmask::from_u64(bm);
                    output.black_queens.bitor_assign(bitmask);
                    output.black_pieces.bitor_assign(bitmask.to_black_pieces());
                    output.all_pieces.bitor_assign(bitmask.to_pieces());
                },
                PieceEnum::BlackKing => {
                    let bitmask: Bitmask<BlackKings> = Bitmask::from_u64(bm);
                    output.black_kings.bitor_assign(bitmask);
                    output.black_pieces.bitor_assign(bitmask.to_black_pieces());
                    output.all_pieces.bitor_assign(bitmask.to_pieces());
                },
            }
            idx = idx + 1;
        }
        proof {
            assert(m.take(idx as int) =~= m);
            lemma_sides_disjoint(m);
        }
        output
    }
}

/// Folding one further mask into any of six union members moves it to the end
/// of the union.
proof fn lemma_or_positions(p: u64, n: u64, b: u64, r: u64, q: u64, k: u64, bm: u64)
    ensures
        (p | bm) | n | b | r | q | k == (p | n | b | r | q | k) | bm,
        p | (n | bm) | b | r | q | k == (p | n | b | r | q | k) | bm,
        p | n | (b | bm) | r | q | k == (p | n | b | r | q | k) | bm,
        p | n | b | (r | bm) | q | k == (p | n | b | r | q | k) | bm,
        p | n | b | r | (q | bm) | k == (p | n | b | r | q | k) | bm,
        p | n | b | r | q | (k | bm) == (p | n | b | r | q | k) | bm,
{
    assert(((p | bm) | n | b | r | q | k == (p | n | b | r | q | k) | bm) && (p | (n | bm) | b | r
        | q | k == (p | n | b | r | q | k) | bm) && (p | n | (b | bm) | r | q | k == (p | n | b | r
        | q | k) | bm) && (p | n | b | (r | bm) | q | k == (p | n | b | r | q | k) | bm) && (p | n
        | b | r | (q | bm) | k == (p | n | b | r | q | k) | bm) && (p | n | b | r | q | (k | bm)
        == (p | n | b | r | q | k) | bm)) by (bit_vector);
}

/// Folding one further mask into either side of a two-way union moves it to
/// the end of the union.
proof fn lemma_or_aggregate(w: u64, b: u64, bm: u64)
    ensures
        (w | bm) | b == (w | b) | bm,
        w | (b | bm) == (w | b) | bm,
{
    assert(((w | bm) | b == (w | b) | bm) && (w | (b | bm) == (w | b) | bm)) by (bit_vector);
}

} // verus!
