//! A pointer that stores how far away its target is, not where it is.

use vstd::prelude::*;
use crate::error::IntegerOffsetError;
use crate::metadata::traits::{non_null, recomposed, spec_non_null, FatPointer, PointerRecomposition};
use crate::offset::delta::{difference, Nullable, Offset};
use crate::offset::integers::{exact_distance, shifted};

verus! {

/// Whether a recorded target, if there is one, lies at `target`.
pub open spec fn guard_agrees<C>(payload: Option<FatPointer<C>>, target: int) -> bool {
    payload matches Some(expected) ==> expected.address == target
}

/// What a bound pointer records of a target whose absolute place is known.
fn guard_payload_from<C>(target: Option<FatPointer<C>>) -> (r: Option<FatPointer<C>>)
    ensures
        r == target,
{
    target
}

/// What a bound pointer records when no absolute place is known.
fn guard_payload_empty<C>() -> (r: Option<FatPointer<C>>)
    ensures
        r is None,
{
    guard_payload_from::<C>(None)
}

/// The absolute target that was recorded, if any.
fn guard_extract_target<C>(payload: Option<FatPointer<C>>) -> (r: Option<FatPointer<C>>)
    ensures
        r == payload,
{
    payload
}

/// Holds a freshly computed target address against the recorded one.
fn guard_assert_target<C>(payload: Option<FatPointer<C>>, target: usize)
    requires
        guard_agrees(payload, target as int),
{
}

/// Whether a pointer has been bound, and what it then holds besides the offset.
#[derive(Clone, Copy)]
enum RefState<C> {
    /// Not bound yet.
    Unset,
    /// Bound: the target's components, and its absolute place if recorded.
    Ready(C, Option<FatPointer<C>>),
}

/// A pointer that stores the distance from its own address to its target.
///
/// The distance between two parts of one object does not change when the
/// object moves, so the pointer stays right wherever the object goes, as long
/// as pointer and target move together. The pointer does not know its own
/// address: every operation that needs it takes it as `at`.
///
/// A pointer starts unbound and becomes bound by `set`; once bound it stays
/// bound, and binding it again overwrites what it holds. A pointer rebuilt
/// from parts may carry the absolute place of its target on record; the
/// accessors that hold the record against the address they compute ask, as
/// a precondition, that the two agree.
pub struct SelfRef<T: ?Sized + PointerRecomposition, I: Offset = isize> {
    offset: I,
    state: RefState<T::Components>,
}

impl<T: ?Sized + PointerRecomposition, I: Offset> Clone for SelfRef<T, I> {
    fn clone(&self) -> (r: Self)
        ensures
            r == *self,
    {
        *self
    }
}

impl<T: ?Sized + PointerRecomposition, I: Offset> Copy for SelfRef<T, I> {

}

impl<T: ?Sized + PointerRecomposition, I: Nullable> SelfRef<T, I> {
    /// An unbound pointer.
    pub fn null() -> (r: Self)
        ensures
            !r.ready(),
            r.stored_offset().distance() == 0,
            r.recorded() is None,
    {
        SelfRef { offset: I::null(), state: RefState::Unset }
    }

    /// Whether the stored distance is zero.
    pub fn is_null(&self) -> (r: bool)
        ensures
            r == (self.stored_offset().distance() == 0),
    {
        self.offset.equals(I::null())
    }
}

impl<T: ?Sized + PointerRecomposition, I: Offset> SelfRef<T, I> {
    /// Whether the pointer has been bound.
    pub closed spec fn ready(&self) -> bool {
        self.state is Ready
    }

    /// The offset that the pointer holds.
    pub closed spec fn stored_offset(&self) -> I {
        self.offset
    }

    /// The components that a bound pointer holds.
    pub closed spec fn stored_components(&self) -> T::Components {
        self.state->Ready_0
    }

    /// The absolute target that a bound pointer has on record, if any.
    pub closed spec fn recorded(&self) -> Option<FatPointer<T::Components>> {
        match self.state {
            RefState::Unset => None,
            RefState::Ready(_, payload) => payload,
        }
    }

    /// The address that the pointer leads to when it lies at `at`.
    pub open spec fn target_from(&self, at: usize) -> int {
        at + self.stored_offset().distance()
    }

    /// Whether the target of the pointer lying at `at` is an address at all.
    pub open spec fn in_reach(&self, at: usize) -> bool {
        0 <= self.target_from(at) <= usize::MAX
    }

    /// The target of a bound pointer that lies at `at` and is in reach from
    /// there: absent where the address comes out as zero.
    pub open spec fn resolved(&self, at: usize) -> Option<FatPointer<T::Components>> {
        recomposed(spec_non_null(self.target_from(at) as usize), self.stored_components())
    }

    /// Whether the pointer, lying at `at`, is bound to the target that lies
    /// at `target` and has the given components.
    pub open spec fn bound_to(&self, at: usize, target: usize, components: T::Components) -> bool {
        &&& self.ready()
        &&& self.stored_offset().distance() == target - at
        &&& self.stored_components() == components
    }

    /// Whether the pointer lying at `at` leads to the target it has on record.
    pub open spec fn guarded(&self, at: usize) -> bool {
        guard_agrees(self.recorded(), self.target_from(at))
    }

    /// Whether the target of the pointer lying at `at` is an address at all,
    /// as every access asks of a bound pointer.
    pub fn reaches(&self, at: usize) -> (r: bool)
        ensures
            r == self.in_reach(at),
    {
        self.offset.reaches(at)
    }

    /// Whether the pointer lying at `at` leads to the target it has on
    /// record, as the accessors that look at the record ask.
    pub fn agrees_with_record(&self, at: usize) -> (r: bool)
        requires
            self.in_reach(at),
        ensures
            r == self.guarded(at),
    {
        match self.state {
            RefState::Ready(_, Some(expected)) => expected.address == self.offset.add(at),
            _ => true,
        }
    }

    /// Whether the pointer has been bound.
    pub fn is_ready(&self) -> (r: bool)
        ensures
            r == self.ready(),
    {
        match self.state {
            RefState::Ready(_, _) => true,
            RefState::Unset => false,
        }
    }

    /// The components of a bound pointer.
    pub fn components_if_ready(&self) -> (r: Option<T::Components>)
        ensures
            r == (if self.ready() {
                Some(self.stored_components())
            } else {
                None
            }),
    {
        match self.state {
            RefState::Ready(_, _) => Some(self.components_unchecked()),
            RefState::Unset => None,
        }
    }

    /// The components of a pointer that is known to be bound.
    fn components_unchecked(&self) -> (r: T::Components)
        requires
            self.ready(),
        ensures
            r == self.stored_components(),
    {
        match self.state {
            RefState::Ready(components, _) => components,
            RefState::Unset => vstd::pervasive::unreached(),
        }
    }

    /// The offset that the pointer holds.
    pub fn offset(&self) -> (r: I)
        ensures
            r == self.stored_offset(),
    {
        self.offset
    }

    /// A bound pointer from an offset and components that were captured before.
    pub fn from_parts(offset: I, components: T::Components) -> (r: Self)
        ensures
            r.ready(),
            r.stored_offset() == offset,
            r.stored_components() == components,
            r.recorded() is None,
    {
        SelfRef { offset, state: RefState::Ready(components, guard_payload_empty::<T::Components>()) }
    }

    /// A bound pointer from captured parts, with the absolute target on record
    /// where it is known.
    pub fn from_parts_with_target(
        offset: I,
        components: T::Components,
        target: Option<FatPointer<T::Components>>,
    ) -> (r: Self)
        ensures
            r.ready(),
            r.stored_offset() == offset,
            r.stored_components() == components,
            r.recorded() == target,
    {
        SelfRef {
            offset,
            state: RefState::Ready(components, guard_payload_from::<T::Components>(target)),
        }
    }

    /// Offset and components of a bound pointer.
    pub fn parts_if_ready(&self) -> (r: Option<(I, T::Components)>)
        ensures
            r == (if self.ready() {
                Some((self.stored_offset(), self.stored_components()))
            } else {
                None
            }),
    {
        match self.components_if_ready() {
            Some(components) => Some((self.offset, components)),
            None => None,
        }
    }

    /// Offset, components and recorded target of a bound pointer.
    pub fn parts_with_target_if_ready(&self) -> (r: Option<
        (I, T::Components, Option<FatPointer<T::Components>>),
    >)
        ensures
            r == (if self.ready() {
                Some((self.stored_offset(), self.stored_components(), self.recorded()))
            } else {
                None
            }),
    {
        match self.state {
            RefState::Ready(components, payload) => Some(
                (self.offset, components, guard_extract_target::<T::Components>(payload)),
            ),
            RefState::Unset => None,
        }
    }

    /// Binds the pointer, which lies at `at`, to `value`, which lies at `target`.
    ///
    /// Where the offset type cannot hold the distance the pointer stays as it was.
    pub fn set(&mut self, at: usize, target: usize, value: &T) -> (r: Result<
        (),
        IntegerOffsetError,
    >)
        ensures
            match difference::<I>(target, at) {
                Ok(_) => {
                    &&& r is Ok
                    &&& final(self).bound_to(at, target, value.components())
                    &&& final(self).recorded() is None
                },
                Err(e) => r == Err::<(), IntegerOffsetError>(e) && *final(self) == *old(self),
            },
            old(self).ready() ==> final(self).ready(),
    {
        match I::sub(target, at) {
            Err(e) => Err(e),
            Ok(offset) => {
                self.offset = offset;
                self.state = RefState::Ready(
                    T::decompose(value),
                    guard_payload_empty::<T::Components>(),
                );
                Ok(())
            },
        }
    }

    /// Binds the pointer, which lies at `at`, to `value`, which lies at
    /// `target`, for a caller who knows that the offset type holds the distance.
    pub fn set_unchecked(&mut self, at: usize, target: usize, value: &T)
        requires
            target != 0,
            difference::<I>(target, at) is Ok,
        ensures
            final(self).bound_to(at, target, value.components()),
            final(self).recorded() is None,
    {
        self.offset = I::sub_unchecked(target, at);
        self.state = RefState::Ready(T::decompose(value), guard_payload_empty::<T::Components>());
    }

    /// The target of a bound pointer that lies at `at`, with no look at the record.
    fn as_raw_unchecked_impl(&self, at: usize) -> (r: Option<FatPointer<T::Components>>)
        requires
            self.ready(),
            self.in_reach(at),
        ensures
            r == self.resolved(at),
    {
        let target: usize = self.offset.add(at);
        let components = self.components_unchecked();
        T::recompose(non_null(target), components)
    }

    /// The target of a bound pointer that lies at `at`, as a pointer that may be null.
    pub fn as_raw_unchecked(&self, at: usize) -> (r: Option<FatPointer<T::Components>>)
        requires
            self.ready(),
            self.in_reach(at),
        ensures
            r == self.resolved(at),
    {
        self.as_raw_unchecked_impl(at)
    }

    /// The target of a bound pointer that lies at `at`.
    pub fn as_non_null_unchecked(&self, at: usize) -> (r: FatPointer<T::Components>)
        requires
            self.ready(),
            self.in_reach(at),
            self.target_from(at) != 0,
            self.guarded(at),
        ensures
            self.resolved(at) == Some(r),
            r.address == self.target_from(at),
            r.components == self.stored_components(),
    {
        let target: usize = self.offset.add(at);
        let components = self.components_unchecked();
        if let RefState::Ready(_, payload) = self.state {
            guard_assert_target::<T::Components>(payload, target);
        }
        T::recompose(non_null(target), components).unwrap()
    }

    /// The target of a bound pointer that lies at `at`, for reading.
    pub fn as_ref_unchecked(&self, at: usize) -> (r: FatPointer<T::Components>)
        requires
            self.ready(),
            self.in_reach(at),
            self.target_from(at) != 0,
        ensures
            self.resolved(at) == Some(r),
            r.address == self.target_from(at),
            r.components == self.stored_components(),
    {
        self.as_raw_unchecked_impl(at).unwrap()
    }

    /// The target of a bound pointer that lies at `at` inside the object
    /// that starts at `base`, for reading.
    pub fn get_ref_from_base_unchecked(&self, at: usize, base: usize) -> (r: FatPointer<
        T::Components,
    >)
        requires
            self.ready(),
            base <= at,
            at - base <= isize::MAX,
            self.in_reach(at),
            self.target_from(at) != 0,
            self.guarded(at),
        ensures
            self.resolved(at) == Some(r),
            r.address == self.target_from(at),
            r.components == self.stored_components(),
    {
        let d_self: isize = exact_distance(at, base);
        let at_self: usize = shifted(base, d_self as i128);
        let components = self.components_unchecked();
        let target: usize = self.offset.add(at_self);
        if let RefState::Ready(_, payload) = self.state {
            guard_assert_target::<T::Components>(payload, target);
        }
        T::recompose(non_null(target), components).unwrap()
    }

    /// The target of a bound pointer that lies at `at` inside the object
    /// that starts at `base`, for writing.
    pub fn get_mut_from_base_unchecked(&self, at: usize, base: usize) -> (r: FatPointer<
        T::Components,
    >)
        requires
            self.ready(),
            base <= at,
            at - base <= isize::MAX,
            self.in_reach(at),
            self.target_from(at) != 0,
            self.guarded(at),
        ensures
            self.resolved(at) == Some(r),
            r.address == self.target_from(at),
            r.components == self.stored_components(),
    {
        let d_self: isize = exact_distance(at, base);
        let at_self: usize = shifted(base, d_self as i128);
        let components = self.components_unchecked();
        let target: usize = self.offset.add(at_self);
        if let RefState::Ready(_, payload) = self.state {
            guard_assert_target::<T::Components>(payload, target);
        }
        T::recompose(non_null(target), components).unwrap()
    }

    /// The target of a bound pointer that lies at `at`, for writing.
    pub fn as_mut_unchecked(&self, at: usize) -> (r: FatPointer<T::Components>)
        requires
            self.ready(),
            self.in_reach(at),
            self.target_from(at) != 0,
        ensures
            self.resolved(at) == Some(r),
            r.address == self.target_from(at),
            r.components == self.stored_components(),
    {
        self.as_raw_unchecked(at).unwrap()
    }
}

impl<T: ?Sized + PointerRecomposition, I: Nullable> SelfRef<T, I> {
    /// The target of the pointer that lies at `at`, null while the pointer is unbound.
    pub fn as_raw(&self, at: usize) -> (r: Option<FatPointer<T::Components>>)
        requires
            self.ready() ==> self.in_reach(at) && self.guarded(at),
        ensures
            r == (if self.ready() {
                self.resolved(at)
            } else {
                None
            }),
    {
        self.as_non_null(at)
    }

    /// The target of the pointer that lies at `at`, absent while the pointer is unbound.
    pub fn as_non_null(&self, at: usize) -> (r: Option<FatPointer<T::Components>>)
        requires
            self.ready() ==> self.in_reach(at) && self.guarded(at),
        ensures
            r == (if self.ready() {
                self.resolved(at)
            } else {
                None
            }),
    {
        if !self.is_ready() {
            return None;
        }
        let target: usize = self.offset.add(at);
        let components = self.components_unchecked();
        if let RefState::Ready(_, payload) = self.state {
            guard_assert_target::<T::Components>(payload, target);
        }
        T::recompose(non_null(target), components)
    }

    /// The target of the pointer that lies at `at`, for reading; absent while
    /// the pointer is unbound.
    pub fn as_ref(&self, at: usize) -> (r: Option<FatPointer<T::Components>>)
        requires
            self.ready() ==> self.in_reach(at) && self.guarded(at),
        ensures
            r == (if self.ready() {
                self.resolved(at)
            } else {
                None
            }),
    {
        self.as_non_null(at)
    }

    /// The target of the pointer that lies at `at`, for writing; absent while
    /// the pointer is unbound.
    pub fn as_mut(&self, at: usize) -> (r: Option<FatPointer<T::Components>>)
        requires
            self.ready() ==> self.in_reach(at) && self.guarded(at),
        ensures
            r == (if self.ready() {
                self.resolved(at)
            } else {
                None
            }),
    {
        self.as_non_null(at)
    }
}

} // verus!
