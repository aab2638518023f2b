//! Comparing relative pointers.

use vstd::prelude::*;
use vstd::std_specs::cmp::PartialEqSpecImpl;
use crate::metadata::traits::PointerRecomposition;
use crate::offset::delta::Offset;
use crate::pointer::self_ref::SelfRef;

verus! {

/// Whether two pointers hold the same: both unbound, or both bound with the
/// same distance and the same components. Where they lead does not count.
pub open spec fn same_binding<T: ?Sized + PointerRecomposition, I: Offset>(
    p: &SelfRef<T, I>,
    q: &SelfRef<T, I>,
) -> bool {
    if p.ready() && q.ready() {
        p.stored_offset().distance() == q.stored_offset().distance() && p.stored_components()
            == q.stored_components()
    } else {
        !p.ready() && !q.ready()
    }
}

impl<T: ?Sized + PointerRecomposition, I: Offset> PartialEq for SelfRef<T, I> {
    fn eq(&self, other: &Self) -> (r: bool) {
        match (self.components_if_ready(), other.components_if_ready()) {
            (None, None) => true,
            (Some(lhs), Some(rhs)) => self.offset().equals(other.offset()) && T::same_components(
                lhs,
                rhs,
            ),
            _ => false,
        }
    }
}

impl<T: ?Sized + PointerRecomposition, I: Offset> PartialEqSpecImpl for SelfRef<T, I> {
    open spec fn obeys_eq_spec() -> bool {
        true
    }

    open spec fn eq_spec(&self, other: &Self) -> bool {
        same_binding(self, other)
    }
}

impl<T: ?Sized + PointerRecomposition, I: Offset> Eq for SelfRef<T, I> {

}

} // verus!
