//! An offset type that keeps the distance zero free.

use vstd::prelude::*;
use crate::error::{IntegerOffsetError, IntegerOffsetErrorImpl};
use crate::offset::delta::{difference, Nullable, Offset};

verus! {

/// An offset of the width of `I` that refuses the distance zero, so that zero
/// can only ever mean "unbound".
#[derive(Debug, PartialEq, Eq)]
pub struct NonZero<I: Offset>(I);

impl<I: Offset> Clone for NonZero<I> {
    fn clone(&self) -> (r: Self)
        ensures
            r == *self,
    {
        *self
    }
}

impl<I: Offset> Copy for NonZero<I> {

}

impl<I: Offset> NonZero<I> {
    /// The offset inside.
    pub closed spec fn inner(self) -> I {
        self.0
    }

    /// No value of the type stands for the distance zero.
    #[verifier::type_invariant]
    spec fn never_zero(self) -> bool {
        self.0.distance() != 0
    }

    /// The offset inside, which is never of distance zero.
    pub fn get(self) -> (r: I)
        ensures
            r == self.inner(),
            r.distance() != 0,
    {
        proof {
            use_type_invariant(self);
        }
        self.0
    }
}

impl<I: Nullable> Offset for NonZero<I> {
    open spec fn distance(self) -> int {
        self.inner().distance()
    }

    open spec fn min_distance() -> int {
        I::min_distance()
    }

    open spec fn max_distance() -> int {
        I::max_distance()
    }

    open spec fn excludes_zero() -> bool {
        true
    }

    fn sub(a: usize, b: usize) -> (r: Result<Self, IntegerOffsetError>) {
        match I::sub(a, b) {
            Err(e) => Err(e),
            Ok(d) => {
                if d.equals(I::null()) {
                    Err(IntegerOffsetError(IntegerOffsetErrorImpl::InvalidNonZero))
                } else {
                    Ok(NonZero(d))
                }
            },
        }
    }

    fn sub_unchecked(a: usize, b: usize) -> (r: Self) {
        NonZero(I::sub_unchecked(a, b))
    }

    fn add(self, base: usize) -> (r: usize) {
        self.0.add(base)
    }

    fn reaches(self, base: usize) -> (r: bool) {
        self.0.reaches(base)
    }

    fn equals(self, other: Self) -> (r: bool) {
        self.0.equals(other.0)
    }
}

/// A non-zero offset type refuses the distance from an address to itself.
pub proof fn lemma_zero_refused<I: Nullable>(a: usize)
    ensures
        difference::<NonZero<I>>(a, a) == Err::<int, IntegerOffsetError>(
            IntegerOffsetError(IntegerOffsetErrorImpl::InvalidNonZero),
        ),
{
    I::lemma_holds_zero();
}

/// A non-zero offset type holds every distance that the type inside holds,
/// zero alone left out, and fails on every other as the type inside does.
pub proof fn lemma_refines<I: Nullable>(a: usize, b: usize)
    requires
        a != b,
    ensures
        difference::<NonZero<I>>(a, b) == difference::<I>(a, b),
{
    I::lemma_holds_zero();
}

} // verus!
