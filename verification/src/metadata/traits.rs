//! Splitting a pointer into address and components, and putting it together again.

use vstd::prelude::*;

verus! {

/// A pointer to a target: the address of its first byte and the components
/// that describe the rest of it. The pointers that a relative pointer
/// resolves to never have the address zero.
#[derive(Clone, Copy, Debug, PartialEq, Eq)]
pub struct FatPointer<C> {
    /// Where the target starts.
    pub address: usize,
    /// What else is needed to use the target.
    pub components: C,
}

/// The components of a target of fixed size: nothing.
#[derive(Clone, Copy, Debug, PartialEq, Eq, Structural)]
pub struct Empty;

/// The pointer that is put together from an address, if there is one, and components.
pub open spec fn recomposed<C>(ptr: Option<usize>, data: C) -> Option<FatPointer<C>> {
    match ptr {
        None => None,
        Some(address) => Some(FatPointer { address, components: data }),
    }
}

/// An address as a pointer that may be absent: zero is no address.
pub open spec fn spec_non_null(address: usize) -> Option<usize> {
    if address == 0 {
        None
    } else {
        Some(address)
    }
}

/// An address as a pointer that may be absent: zero is no address.
#[verifier::when_used_as_spec(spec_non_null)]
pub fn non_null(address: usize) -> (r: Option<usize>)
    ensures
        r == spec_non_null(address),
{
    if address == 0 {
        None
    } else {
        Some(address)
    }
}

/// A kind of target, with what a pointer to it keeps besides the address.
///
/// A target of fixed size needs nothing more, a slice or a string needs its
/// length, and a dynamically dispatched target needs its dispatch table.
pub trait PointerRecomposition {
    /// What is kept besides the address.
    type Components: Copy;

    /// The components that describe this target.
    spec fn components(&self) -> Self::Components;

    /// Takes from a live target what a pointer to it must keep.
    fn decompose(this: &Self) -> (r: Self::Components)
        ensures
            r == this.components(),
    ;

    /// Puts a pointer together from an address, if there is one, and components.
    fn recompose(ptr: Option<usize>, data: Self::Components) -> (r: Option<
        FatPointer<Self::Components>,
    >)
        ensures
            r == recomposed(ptr, data),
    ;

    /// Whether two sets of components are the same.
    fn same_components(a: Self::Components, b: Self::Components) -> (r: bool)
        ensures
            r == (a == b),
    ;
}

/// Puts together a pointer to a target of fixed size.
pub fn recompose_sized(ptr: Option<usize>) -> (r: Option<FatPointer<Empty>>)
    ensures
        r == recomposed(ptr, Empty),
{
    match ptr {
        None => None,
        Some(address) => Some(FatPointer { address, components: Empty }),
    }
}

/// Puts together a pointer to a target that is described by one number.
pub fn recompose_counted(ptr: Option<usize>, count: usize) -> (r: Option<FatPointer<usize>>)
    ensures
        r == recomposed(ptr, count),
{
    match ptr {
        None => None,
        Some(address) => Some(FatPointer { address, components: count }),
    }
}

} // verus!
