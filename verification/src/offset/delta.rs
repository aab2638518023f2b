//! The contract of a type that stores the distance between two addresses.

use vstd::prelude::*;
use crate::error::{IntegerOffsetError, IntegerOffsetErrorImpl};

verus! {

/// Whether a distance can be held by a pointer-width signed integer.
pub open spec fn pointer_width(d: int) -> bool {
    isize::MIN <= d <= isize::MAX
}

/// What the checked distance from `b` to `a` is for a type that holds the
/// distances from `min` to `max`, without zero where `excludes_zero` is set:
/// the true distance `a - b` where the type can hold it, otherwise the reason
/// why not.
///
/// The distance is first taken at pointer width, then held against the
/// limits of the type, and last against the zero that a non-zero type keeps free.
pub open spec fn difference_within(
    a: usize,
    b: usize,
    min: int,
    max: int,
    excludes_zero: bool,
) -> Result<int, IntegerOffsetError> {
    let d = a - b;
    if !pointer_width(d) {
        Err(IntegerOffsetError(IntegerOffsetErrorImpl::Sub(a, b)))
    } else if d < min || max < d {
        Err(IntegerOffsetError(IntegerOffsetErrorImpl::Conversion(d as isize)))
    } else if d == 0 && excludes_zero {
        Err(IntegerOffsetError(IntegerOffsetErrorImpl::InvalidNonZero))
    } else {
        Ok(d)
    }
}

/// What the checked distance from `b` to `a` is for the offset type `I`.
pub open spec fn difference<I: Offset>(a: usize, b: usize) -> Result<int, IntegerOffsetError> {
    difference_within(a, b, I::min_distance(), I::max_distance(), I::excludes_zero())
}

/// The address that lies `offset` bytes from `base`.
pub open spec fn apply<I: Offset>(offset: I, base: usize) -> int {
    base + offset.distance()
}

/// A value that stores a signed distance in bytes between two addresses.
pub trait Offset: Copy {
    /// The distance that this value stands for.
    spec fn distance(self) -> int;

    /// The smallest distance that the type can hold.
    spec fn min_distance() -> int;

    /// The largest distance that the type can hold.
    spec fn max_distance() -> int;

    /// Whether the type refuses the distance zero.
    spec fn excludes_zero() -> bool;

    /// The distance from `b` to `a`, or the reason why this type cannot hold it.
    fn sub(a: usize, b: usize) -> (r: Result<Self, IntegerOffsetError>)
        ensures
            match r {
                Ok(d) => difference_within(
                    a,
                    b,
                    Self::min_distance(),
                    Self::max_distance(),
                    Self::excludes_zero(),
                ) == Ok::<int, IntegerOffsetError>(d.distance()),
                Err(e) => difference_within(
                    a,
                    b,
                    Self::min_distance(),
                    Self::max_distance(),
                    Self::excludes_zero(),
                ) == Err::<int, IntegerOffsetError>(e),
            },
    ;

    /// The distance from `b` to `a`, for a caller who knows that the type holds it.
    fn sub_unchecked(a: usize, b: usize) -> (r: Self)
        requires
            difference_within(
                a,
                b,
                Self::min_distance(),
                Self::max_distance(),
                Self::excludes_zero(),
            ) is Ok,
        ensures
            r.distance() == a - b,
    ;

    /// The address that lies this distance from `base`.
    fn add(self, base: usize) -> (r: usize)
        requires
            0 <= base + self.distance() <= usize::MAX,
        ensures
            r == base + self.distance(),
    ;

    /// Whether this distance from `base` is still an address, so that `add`
    /// may be called.
    fn reaches(self, base: usize) -> (r: bool)
        ensures
            r == (0 <= base + self.distance() <= usize::MAX),
    ;

    /// Whether two offsets stand for the same distance.
    fn equals(self, other: Self) -> (r: bool)
        ensures
            r == (self.distance() == other.distance()),
    ;
}

/// An offset type with a value for the distance zero, which marks an unbound pointer.
pub trait Nullable: Offset {
    /// The type holds the distance zero.
    proof fn lemma_holds_zero()
        ensures
            Self::min_distance() <= 0 <= Self::max_distance(),
            !Self::excludes_zero(),
    ;

    /// The offset of distance zero.
    fn null() -> (r: Self)
        ensures
            r.distance() == 0,
    ;
}

/// Applying the distance from `b` to `a` at `b` leads back to `a`: whenever
/// the checked distance exists and `d` holds it, `d` applied to `b` is `a`.
pub proof fn lemma_apply_difference<I: Offset>(a: usize, b: usize, d: I)
    requires
        difference::<I>(a, b) == Ok::<int, IntegerOffsetError>(d.distance()),
    ensures
        apply(d, b) == a,
{
}

/// The distance from an address to itself is zero for every type that holds zero.
pub proof fn lemma_difference_to_self<I: Nullable>(a: usize)
    ensures
        difference::<I>(a, a) == Ok::<int, IntegerOffsetError>(0),
{
    I::lemma_holds_zero();
}

/// The offset of distance zero leads from every address to that same address.
pub proof fn lemma_apply_null<I: Offset>(zero: I, base: usize)
    requires
        zero.distance() == 0,
    ensures
        apply(zero, base) == base,
{
}

/// A distance that fits pointer width but lies outside the limits of the
/// offset type is refused as a failed conversion that names the distance.
pub proof fn lemma_width_failure<I: Offset>(a: usize, b: usize)
    requires
        pointer_width(a - b),
        a - b < I::min_distance() || I::max_distance() < a - b,
    ensures
        difference::<I>(a, b) == Err::<int, IntegerOffsetError>(
            IntegerOffsetError(IntegerOffsetErrorImpl::Conversion((a - b) as isize)),
        ),
{
}

/// Two addresses farther apart than pointer width are refused whatever the
/// offset type, with both addresses named.
pub proof fn lemma_pointer_width_failure<I: Offset>(a: usize, b: usize)
    requires
        !pointer_width(a - b),
    ensures
        difference::<I>(a, b) == Err::<int, IntegerOffsetError>(
            IntegerOffsetError(IntegerOffsetErrorImpl::Sub(a, b)),
        ),
{
}

/// Two parts of one object of at most `size` bytes are never too far apart
/// for an offset type whose limits reach `size` both ways, unless they
/// coincide and the type refuses zero.
pub proof fn lemma_wide_enough<I: Offset>(base: usize, size: usize, a: usize, b: usize)
    requires
        size <= isize::MAX,
        base <= a <= base + size,
        base <= b <= base + size,
        I::min_distance() <= -size,
        size <= I::max_distance(),
        a != b || !I::excludes_zero(),
    ensures
        difference::<I>(a, b) == Ok::<int, IntegerOffsetError>(a - b),
{
}

} // verus!
