use vstd::prelude::*;

verus! {

/// True exactly when `m` is a power of two: a bitmask naming a single square.
pub open spec fn is_single_bit(m: u64) -> bool {
    exists|i: u64| i < 64 && m == (1u64 << i)
}

/// Bitwise AND and OR on 64-bit masks are commutative, and the empty mask is
/// their unit and zero.
pub proof fn lemma_mask_basics()
    ensures
        forall|a: u64, b: u64| #[trigger] (a & b) == b & a,
        forall|a: u64, b: u64| #[trigger] (a | b) == b | a,
        forall|a: u64| #[trigger] (a & 0) == 0,
        forall|a: u64| #[trigger] (a | 0) == a,
        forall|a: u64| #[trigger] (a & a) == a,
        forall|a: u64, b: u64| (a & b == a) ==> #[trigger] (a | b) == b,
        forall|a: u64, b: u64| #[trigger] ((a & b) & a) == a & b,
        forall|a: u64, b: u64| #[trigger] ((a & b) & b) == a & b,
        forall|a: u64| #[trigger] (a & !a) == 0,
        forall|a: u64, b: u64, c: u64| #[trigger] ((a | b) & c) == (a & c) | (b & c),
        forall|a: u64, b: u64| (a & b == a) ==> #[trigger] (a | (b & !a)) == b && a & (b & !a)
            == 0,
        forall|a: u64, b: u64, c: u64|
            (#[trigger] (a & b) == a && #[trigger] (b & c) == 0) ==> (a & c) == 0,
        forall|a: u64, b: u64, c: u64|
            (#[trigger] (a & b) == a && #[trigger] (a & c) == a) ==> a & (b & c) == a,
        forall|a: u64, b: u64, c: u64|
            #![trigger (a & b), (b & c)]
            ((a & b) == a && (b & c) == b) ==> (a & c) == a,
{
    assert((forall|a: u64, b: u64| #[trigger] (a & b) == b & a) && (forall|a: u64, b: u64|
        #[trigger] (a | b) == b | a) && (forall|a: u64| #[trigger] (a & 0) == 0) && (forall|a: u64|
        #[trigger] (a | 0) == a) && (forall|a: u64| #[trigger] (a & a) == a) && (forall|
        a: u64,
        b: u64,
    | (a & b == a) ==> #[trigger] (a | b) == b) && (forall|a: u64, b: u64| #[trigger] ((a & b) & a)
        == a & b) && (forall|a: u64, b: u64| #[trigger] ((a & b) & b) == a & b) && (forall|a: u64|
        #[trigger] (a & !a) == 0) && (forall|a: u64, b: u64, c: u64|
        #[trigger] ((a | b) & c) == (a & c) | (b & c)) && (forall|a: u64, b: u64|
        (a & b == a) ==> #[trigger] (a | (b & !a)) == b && a & (b & !a) == 0) && (forall|a: u64, b: u64, c: u64|
        (#[trigger] (a & b) == a && #[trigger] (b & c) == 0) ==> (a & c) == 0) && (forall|a: u64, b: u64, c: u64|
        (#[trigger] (a & b) == a && #[trigger] (a & c) == a) ==> a & (b & c) == a) && (forall|
        a: u64,
        b: u64,
        c: u64,
    |
        #![trigger (a & b), (b & c)]
        ((a & b) == a && (b & c) == b) ==> (a & c) == a)) by (bit_vector);
}

/// Evaluates if a bitmask has only one bit set.
pub fn has_one_bit_set(bitmask: u64) -> (r: bool)
    ensures
        r == is_single_bit(bitmask),
{
    proof {
        lemma_single_bit_test(bitmask);
    }
    bitmask != 0 && (bitmask & (bitmask - 1)) == 0
}

/// Takes a bitflag representing a single position and returns the u8 key from
/// enumerating positions. With several set bits it returns the key of the
/// lowest one; with none, 64.
pub fn single_bit_bitmask_to_u8(bitmask: &u64) -> (r: u8)
    ensures
        r == vstd::std_specs::bits::u64_trailing_zeros(*bitmask) as u8,
{
    proof {
        vstd::std_specs::bits::axiom_u64_trailing_zeros(*bitmask);
    }
    bitmask.trailing_zeros() as u8
}

/// Takes a bitflag and returns the positions of all its set bits, lowest
/// first.
pub fn multi_bitmask_to_u8s(bitmask: &u64) -> (r: Vec<u8>)
    ensures
        r@.len() == crate::bitscan::bits_of(*bitmask).len(),
        forall|t: int|
            0 <= t < r@.len() ==> (1u64 << (#[trigger] r@[t] as u64)) == crate::bitscan::bits_of(
                *bitmask,
            )[t] && r@[t] < 64,
{
    // take a copy for deconstruction
    let mut bitmask: u64 = *bitmask;
    let ghost orig: u64 = bitmask;
    let mut output: Vec<u8> = Vec::new();
    while bitmask != 0
        invariant
            crate::bitscan::bits_of(orig) == output@.map_values(|k: u8| 1u64 << (k as u64))
                + crate::bitscan::bits_of(bitmask),
            forall|t: int| 0 <= t < output@.len() ==> #[trigger] output@[t] < 64,
        decreases bitmask,
    {
        let next_bit: u64 = crate::bitscan::next_single_bit(bitmask);
        let next: u8 = bitmask.trailing_zeros() as u8;
        proof {
            vstd::std_specs::bits::axiom_u64_trailing_zeros(bitmask);
            assert(1u64 << (next as u64) == next_bit);
        }
        output.push(next);
        bitmask = bitmask & !next_bit;
        proof {
            assert(output@.map_values(|k: u8| 1u64 << (k as u64)) =~= output@.drop_last(
            ).map_values(|k: u8| 1u64 << (k as u64)) + seq![1u64 << (next as u64)]);
        }
    }
    proof {
        crate::bitscan::lemma_bits_of_zero();
        assert(crate::bitscan::bits_of(orig) =~= output@.map_values(|k: u8| 1u64 << (k as u64)));
        assert(forall|t: int|
            0 <= t < output@.len() ==> (1u64 << (#[trigger] output@[t] as u64)) == output@.map_values(
                |k: u8| 1u64 << (k as u64),
            )[t]);
    }
    output
}



/// The empty mask is the unit of bitwise OR.
pub proof fn lemma_or_unit()
    ensures
        forall|a: u64| #[trigger] (a | 0) == a,
        forall|a: u64| #[trigger] (0 | a) == a,
{
    assert((forall|a: u64| #[trigger] (a | 0) == a) && (forall|a: u64| #[trigger] (0 | a) == a))
        by (bit_vector);
}




/// Each side of a union lies inside it.
pub proof fn lemma_or_absorb(a: u64, b: u64)
    ensures
        a & (a | b) == a,
        b & (a | b) == b,
{
    assert(a & (a | b) == a && b & (a | b) == b) by (bit_vector);
}

/// Each member of a six-way union lies inside it.
pub proof fn lemma_six_union(p: u64, n: u64, b: u64, r: u64, q: u64, k: u64)
    ensures
        p & (p | n | b | r | q | k) == p,
        n & (p | n | b | r | q | k) == n,
        b & (p | n | b | r | q | k) == b,
        r & (p | n | b | r | q | k) == r,
        q & (p | n | b | r | q | k) == q,
        k & (p | n | b | r | q | k) == k,
{
    assert(p & (p | n | b | r | q | k) == p && n & (p | n | b | r | q | k) == n && b & (p | n | b
        | r | q | k) == b && r & (p | n | b | r | q | k) == r && q & (p | n | b | r | q | k) == q
        && k & (p | n | b | r | q | k) == k) by (bit_vector);
}

/// An intersection lies inside both of its parts, meets of the empty mask are
/// empty, and a non-empty meet has a non-empty left side.
pub proof fn lemma_meet(a: u64, b: u64)
    ensures
        ((a & b) & a) == (a & b),
        ((a & b) & b) == (a & b),
        a & 0 == 0,
        0 & a == 0,
        a & a == a,
        (a & b != 0) ==> a != 0,
{
    assert(((a & b) & a) == (a & b) && ((a & b) & b) == (a & b) && a & 0 == 0 && 0 & a == 0 && a
        & a == a && ((a & b != 0) ==> a != 0)) by (bit_vector);
}

/// A mask inside an intersection is inside both of its parts.
pub proof fn lemma_absorb(a: u64, b: u64, c: u64)
    ensures
        (a & (b & c) == a) ==> (a & b == a && a & c == a),
{
    assert((a & (b & c) == a) ==> (a & b == a && a & c == a)) by (bit_vector);
}

/// A single-bit mask meets any mask in either itself or nothing, and two
/// single-bit masks with one inside the other are equal.
pub proof fn lemma_single_bit_facts(a: u64, b: u64)
    ensures
        is_single_bit(a) ==> (a & b == 0 || a & b == a),
        (is_single_bit(a) && is_single_bit(b) && a & b == a) ==> a == b,
{
    lemma_single_bit_shape(a);
    lemma_single_bit_shape(b);
    assert((a != 0 && a & (a - 1) as u64 == 0) ==> (a & b == 0 || a & b == a)) by (bit_vector);
    assert((a != 0 && a & (a - 1) as u64 == 0 && b != 0 && b & (b - 1) as u64 == 0 && a & b == a)
        ==> a == b) by (bit_vector);
}

/// The classic `m & (m - 1)` test recognises exactly the powers of two.
pub proof fn lemma_single_bit_shape(m: u64)
    ensures
        is_single_bit(m) <==> (m != 0 && m & (m - 1) as u64 == 0),
{
    lemma_single_bit_test(m);
}

proof fn lemma_single_bit_test(m: u64)
    ensures
        (m != 0 && m & (m - 1) as u64 == 0) <==> is_single_bit(m),
{
    assert(forall|i: u64|
        #![trigger (1u64 << i)]
        i < 64 ==> 1u64 << i != 0 && ((1u64 << i) & ((1u64 << i) - 1) as u64) == 0)
        by (bit_vector);
    if m != 0 && (m & (m - 1) as u64) == 0 {
        vstd::std_specs::bits::axiom_u64_trailing_zeros(m);
        let tz = vstd::std_specs::bits::u64_trailing_zeros(m) as u64;
        assert(m != 0 && (m & (m - 1) as u64) == 0 && tz < 64 && (m >> tz) & 1 == 1
            ==> m == 1u64 << tz) by (bit_vector);
        assert(m == 1u64 << tz);
    }
}

} // verus!
