use core::marker::PhantomData;
use vstd::prelude::*;

verus! {

/// Relies on `core::marker::PhantomData`'s `Clone`: the type has exactly one
/// value, so cloning returns that same value.
pub assume_specification<T>[ <PhantomData<T> as Clone>::clone ](v: &PhantomData<T>) -> (r:
    PhantomData<T>)
    where T: core::marker::PointeeSized
    ensures
        r == *v,
;

/// A 64-bit occupancy mask tagged with the piece class it tracks. The tag is
/// purely a compile-time label; the value is the `mask` word alone.
#[derive(Debug, Clone, Copy)]
#[verifier::reject_recursive_types(T)]
pub struct Bitmask<T> {
    pub mask: u64,
    pub marker: PhantomData<T>,
}

impl<T> Bitmask<T> {
    /// The empty mask.
    pub fn new() -> (r: Self)
        ensures
            r.mask == 0,
    {
        Self { mask: 0, marker: PhantomData }
    }

    /// The mask holding exactly the bits of `value`.
    pub fn from_u64(value: u64) -> (r: Self)
        ensures
            r.mask == value,
    {
        Self { mask: value, marker: PhantomData }
    }

    /// The bits of this mask, as a plain word.
    pub fn to_u64(&self) -> (r: u64)
        ensures
            r == self.mask,
    {
        self.mask
    }

    /// The union of two masks of the same piece class.
    pub fn bitor(self, rhs: Self) -> (r: Self)
        ensures
            r.mask == self.mask | rhs.mask,
    {
        Self { mask: self.mask | rhs.mask, marker: PhantomData }
    }

    /// The intersection of two masks of the same piece class.
    pub fn bitand(self, rhs: Self) -> (r: Self)
        ensures
            r.mask == self.mask & rhs.mask,
    {
        Self { mask: self.mask & rhs.mask, marker: PhantomData }
    }

    /// The complement of this mask.
    pub fn not(self) -> (r: Self)
        ensures
            r.mask == !self.mask,
    {
        Self { mask: !self.mask, marker: PhantomData }
    }

    /// Folds the bits of `rhs` into this mask.
    pub fn bitor_assign(&mut self, rhs: Self)
        ensures
            final (self).mask == old(self).mask | rhs.mask,
    {
        self.mask = self.mask | rhs.mask;
    }

    /// Restricts this mask to the bits of `rhs`.
    pub fn bitand_assign(&mut self, rhs: Self)
        ensures
            final (self).mask == old(self).mask & rhs.mask,
    {
        self.mask = self.mask & rhs.mask;
    }
}

} // verus!
