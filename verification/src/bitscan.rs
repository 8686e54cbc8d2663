use vstd::prelude::*;
use vstd::std_specs::bits::axiom_u64_trailing_zeros;
use vstd::std_specs::bits::u64_trailing_zeros;

use crate::shared::is_single_bit;

verus! {

/// The single-bit masks of `m` at bit positions `lo` and above, lowest first.
pub open spec fn bits_from(m: u64, lo: u64) -> Seq<u64>
    decreases 64 - lo,
{
    if lo >= 64 {
        Seq::empty()
    } else if m & (1u64 << lo) != 0 {
        seq![1u64 << lo] + bits_from(m, (lo + 1) as u64)
    } else {
        bits_from(m, (lo + 1) as u64)
    }
}

/// The single-bit masks of `m`, in ascending bit order.
pub open spec fn bits_of(m: u64) -> Seq<u64> {
    bits_from(m, 0)
}

/// The lowest set bit of `m`, as a mask (meaningful only for `m != 0`).
pub open spec fn lowest_bit(m: u64) -> u64 {
    1u64 << (u64_trailing_zeros(m) as u64)
}

proof fn lemma_bits_from_skip(m: u64, lo: u64, hi: u64)
    requires
        lo <= hi <= 64,
        forall|k: u64| lo <= k < hi ==> m & (1u64 << k) == 0,
    ensures
        bits_from(m, lo) == bits_from(m, hi),
    decreases hi - lo,
{
    if lo < hi {
        assert(m & (1u64 << lo) == 0);
        lemma_bits_from_skip(m, (lo + 1) as u64, hi);
    }
}

proof fn lemma_bits_from_agree(m1: u64, m2: u64, lo: u64)
    requires
        forall|k: u64| lo <= k < 64 ==> ((m1 & (1u64 << k) == 0) <==> (m2 & (1u64 << k) == 0)),
    ensures
        bits_from(m1, lo) == bits_from(m2, lo),
    decreases 64 - lo,
{
    if lo < 64 {
        assert(m1 & (1u64 << lo) == 0 <==> m2 & (1u64 << lo) == 0);
        lemma_bits_from_agree(m1, m2, (lo + 1) as u64);
    }
}

pub proof fn lemma_bits_of_zero()
    ensures
        bits_of(0) =~= Seq::<u64>::empty(),
{
    assert(forall|k: u64| 0u64 & (1u64 << k) == 0) by (bit_vector);
    lemma_bits_from_skip(0, 0, 64);
}

/// Splitting off the lowest set bit of a non-empty mask peels the first
/// element off its bit sequence and strictly shrinks the mask.
pub proof fn lemma_bits_pop(m: u64)
    requires
        m != 0,
    ensures
        is_single_bit(lowest_bit(m)),
        lowest_bit(m) & m == lowest_bit(m),
        bits_of(m) == seq![lowest_bit(m)] + bits_of(m & !lowest_bit(m)),
        (m & !lowest_bit(m)) < m,
    decreases m,
{
    axiom_u64_trailing_zeros(m);
    let tz = u64_trailing_zeros(m) as u64;
    let low = lowest_bit(m);
    let rest = m & !low;
    assert(tz < 64);
    assert((forall|j: u64| j < 64 ==> (((m >> j) & 1 == 0) <==> (m & (1u64 << j) == 0))) && (
    forall|j: u64, t: u64|
        j < 64 && t < 64 ==> ((m & !(1u64 << t)) & (1u64 << j)) == (if j == t {
            0u64
        } else {
            m & (1u64 << j)
        })) && (m != 0 && tz < 64 && (m >> tz) & 1 == 1 ==> ((1u64 << tz) & m == (1u64 << tz) && (m
        & !(1u64 << tz)) < m))) by (bit_vector);
    assert forall|k: u64| k < tz implies m & (1u64 << k) == 0 by {
        assert((m >> k) & 1 == 0);
    }
    lemma_bits_from_skip(m, 0, tz);
    assert(m & (1u64 << tz) != 0);
    assert(bits_from(m, tz) == seq![low] + bits_from(m, (tz + 1) as u64));

    lemma_bits_from_skip(rest, 0, (tz + 1) as u64);
    lemma_bits_from_agree(rest, m, (tz + 1) as u64);
    assert(is_single_bit(low));

}

/// Every element of `bits_of(m)` is a single-bit mask lying inside `m`.
pub proof fn lemma_bits_of_elems(m: u64)
    ensures
        forall|t: int|
            0 <= t < bits_of(m).len() ==> is_single_bit(#[trigger] bits_of(m)[t]) && bits_of(
                m,
            )[t] & m == bits_of(m)[t],
{
    lemma_bits_from_elems(m, 0);
}

proof fn lemma_bits_from_elems(m: u64, lo: u64)
    ensures
        forall|t: int|
            0 <= t < bits_from(m, lo).len() ==> is_single_bit(#[trigger] bits_from(m, lo)[t])
                && bits_from(m, lo)[t] & m == bits_from(m, lo)[t],
    decreases 64 - lo,
{
    if lo < 64 {
        lemma_bits_from_elems(m, (lo + 1) as u64);
        let s = bits_from(m, lo);
        let rest = bits_from(m, (lo + 1) as u64);
        if m & (1u64 << lo) != 0 {
            assert(m & (1u64 << lo) != 0 && lo < 64 ==> ((1u64 << lo) & m == (1u64 << lo)))
                by (bit_vector);
            assert(is_single_bit(1u64 << lo));
            assert(s == seq![1u64 << lo] + rest);
            assert forall|t: int| 0 <= t < s.len() implies is_single_bit(#[trigger] s[t]) && s[t]
                & m == s[t] by {
                if t == 0 {
                    assert(s[t] == 1u64 << lo);
                } else {
                    assert(s[t] == rest[t - 1]);
                }
            }
        } else {
            assert(s == rest);
        }
    }
}

/// A single-bit mask is its own lowest bit, and its trailing-zero count is a
/// valid bit position.
pub proof fn lemma_single_bit_lowest(m: u64)
    requires
        is_single_bit(m),
    ensures
        lowest_bit(m) == m,
        u64_trailing_zeros(m) < 64,
{
    let i = choose|i: u64| i < 64 && m == (1u64 << i);
    axiom_u64_trailing_zeros(m);
    let tz = u64_trailing_zeros(m) as u64;
    assert(m == 1u64 << i && i < 64 ==> m != 0) by (bit_vector);
    assert((m == 1u64 << i && i < 64 && tz < 64 && (m >> tz) & 1 == 1) ==> 1u64 << tz == m)
        by (bit_vector);
}


/// The bits of a union of two disjoint masks number exactly the bits of the
/// two masks together.
pub proof fn lemma_bits_of_disjoint_union(a: u64, b: u64)
    requires
        a & b == 0,
    ensures
        bits_of(a | b).len() == bits_of(a).len() + bits_of(b).len(),
{
    assert(forall|k: u64|
        #![trigger ((a | b) & (1u64 << k))]
        k < 64 ==> (((a | b) & (1u64 << k) != 0) <==> ((a & (1u64 << k) != 0) || (b & (1u64 << k)
            != 0))) && (a & b == 0 ==> !((a & (1u64 << k) != 0) && (b & (1u64 << k) != 0))))
        by (bit_vector);
    lemma_bits_from_disjoint_union(a, b, 0);
}

proof fn lemma_bits_from_disjoint_union(a: u64, b: u64, lo: u64)
    requires
        forall|k: u64|
            #![trigger ((a | b) & (1u64 << k))]
            k < 64 ==> (((a | b) & (1u64 << k) != 0) <==> ((a & (1u64 << k) != 0) || (b & (1u64
                << k) != 0))) && !((a & (1u64 << k) != 0) && (b & (1u64 << k) != 0)),
    ensures
        bits_from(a | b, lo).len() == bits_from(a, lo).len() + bits_from(b, lo).len(),
    decreases 64 - lo,
{
    if lo < 64 {
        lemma_bits_from_disjoint_union(a, b, (lo + 1) as u64);
        assert(((a | b) & (1u64 << lo) != 0) <==> ((a & (1u64 << lo) != 0) || (b & (1u64 << lo)
            != 0)));
    }
}

/// A single-bit mask holds exactly one square.
pub proof fn lemma_bits_of_single(b: u64)
    requires
        is_single_bit(b),
    ensures
        bits_of(b).len() == 1,
{
    lemma_single_bit_lowest(b);
    lemma_bits_pop(b);
    crate::shared::lemma_mask_basics();
    assert(b & !b == 0);
    lemma_bits_of_zero();
}

/// Returns the lowest set bit of a non-empty mask, peeling the first element
/// off the mask's bit sequence.
pub fn next_single_bit(m: u64) -> (r: u64)
    requires
        m != 0,
    ensures
        r == lowest_bit(m),
        is_single_bit(r),
        r & m == r,
        bits_of(m) == seq![r] + bits_of(m & !r),
        (m & !r) < m,
{
    proof {
        lemma_bits_pop(m);
        axiom_u64_trailing_zeros(m);
    }
    1u64 << m.trailing_zeros()
}

} // verus!
