//! What holds of a bound pointer when the object around it moves.

use vstd::prelude::*;
use vstd::string::StringSliceAdditionalSpecFns;
use crate::metadata::traits::{FatPointer, PointerRecomposition};
use crate::offset::delta::Offset;
use crate::pointer::self_ref::SelfRef;

verus! {

/// A bound pointer follows its target: once `p` at `at` is bound to the
/// target at `target`, then after pointer and target have moved together by
/// `shift` bytes, `p` resolves to the target's new address with the
/// components unchanged. With `shift` zero this is the state right after
/// binding.
pub proof fn lemma_round_trip<T: ?Sized + PointerRecomposition, I: Offset>(
    p: SelfRef<T, I>,
    at: usize,
    target: usize,
    components: T::Components,
    shift: int,
)
    requires
        p.bound_to(at, target, components),
        0 <= at + shift <= usize::MAX,
        0 < target + shift <= usize::MAX,
    ensures
        p.in_reach((at + shift) as usize),
        p.resolved((at + shift) as usize) == Some(
            FatPointer { address: (target + shift) as usize, components },
        ),
        p.bound_to((at + shift) as usize, (target + shift) as usize, components),
{
}

/// Two objects that change places keep their own targets: a pointer bound
/// in one object and a pointer bound in the other each resolve, at the place
/// the other pointer had, to the target that moved along with it.
pub proof fn lemma_swap<T: ?Sized + PointerRecomposition, I: Offset>(
    p: SelfRef<T, I>,
    p_at: usize,
    p_target: usize,
    p_components: T::Components,
    q: SelfRef<T, I>,
    q_at: usize,
    q_target: usize,
    q_components: T::Components,
)
    requires
        p.bound_to(p_at, p_target, p_components),
        q.bound_to(q_at, q_target, q_components),
        0 < p_target + (q_at - p_at) <= usize::MAX,
        0 < q_target + (p_at - q_at) <= usize::MAX,
    ensures
        p.resolved(q_at) == Some(
            FatPointer { address: (p_target + (q_at - p_at)) as usize, components: p_components },
        ),
        q.resolved(p_at) == Some(
            FatPointer { address: (q_target + (p_at - q_at)) as usize, components: q_components },
        ),
{
}

/// The `len` bytes that `memory` holds from the address `start` on.
pub open spec fn bytes_at(memory: Map<int, u8>, start: int, len: nat) -> Seq<u8> {
    Seq::new(len, |i: int| memory[start + i])
}

/// Whether `after` holds, `shift` bytes on, every byte that `before` held in
/// the `size` bytes from `base`: the object that lay at `base` has moved.
pub open spec fn relocated(
    before: Map<int, u8>,
    after: Map<int, u8>,
    base: int,
    size: nat,
    shift: int,
) -> bool {
    forall|a: int| base <= a < base + size ==> after[a + shift] == #[trigger] before[a]
}

/// What a bound pointer leads to reads the same after a move as before:
/// when the object of `size` bytes at `base`, which holds the target's
/// `extent` bytes, moves by `shift` with the pointer, then the pointer
/// resolves to an address where memory holds what the target held when the
/// pointer was bound.
pub proof fn lemma_relocated_target_reads_the_same<T: ?Sized + PointerRecomposition, I: Offset>(
    p: SelfRef<T, I>,
    at: usize,
    target: usize,
    components: T::Components,
    extent: nat,
    base: usize,
    size: nat,
    shift: int,
    before: Map<int, u8>,
    after: Map<int, u8>,
)
    requires
        p.bound_to(at, target, components),
        base <= target,
        target + extent <= base + size,
        relocated(before, after, base as int, size, shift),
        0 <= at + shift <= usize::MAX,
        0 < target + shift <= usize::MAX,
    ensures
        p.resolved((at + shift) as usize) matches Some(found) && found.components == components
            && bytes_at(after, found.address as int, extent) == bytes_at(
            before,
            target as int,
            extent,
        ),
{
    let found = p.resolved((at + shift) as usize).unwrap();
    assert(found.address == target + shift);
    let now = bytes_at(after, found.address as int, extent);
    let then = bytes_at(before, target as int, extent);
    assert forall|i: int| 0 <= i < extent implies #[trigger] now[i] == then[i] by {
        let a = target + i;
        assert(after[a + shift] == before[a]);
    }
    assert(now =~= then);
}

/// The bytes that a pointer to a run of elements covers: from its address up
/// to, not including, the address `components` elements on.
pub open spec fn byte_range(pointer: FatPointer<usize>, element_size: nat) -> (int, int) {
    (pointer.address as int, pointer.address + pointer.components * element_size)
}

/// A pointer bound to part of a slice keeps the length of that part: after
/// pointer and data have moved together by `shift` bytes, it resolves to a
/// pointer of exactly that length, which covers exactly the part's bytes at
/// their new place and not those of the data around it.
pub proof fn lemma_slice_metadata<E, I: Offset>(
    p: SelfRef<[E], I>,
    at: usize,
    target: usize,
    part: &[E],
    element_size: nat,
    shift: int,
)
    requires
        p.bound_to(at, target, part.components()),
        0 <= at + shift <= usize::MAX,
        0 < target + shift <= usize::MAX,
    ensures
        p.resolved((at + shift) as usize) matches Some(pointer) && pointer.components
            == part@.len() && byte_range(pointer, element_size) == (
            target + shift,
            target + shift + part@.len() * element_size,
        ),
{
    assert(vstd::slice::spec_slice_len(part) == part@.len());
}

/// A pointer bound to part of a string keeps the length in bytes of that
/// part, and after a move covers exactly its bytes at their new place.
pub proof fn lemma_str_metadata<I: Offset>(
    p: SelfRef<str, I>,
    at: usize,
    target: usize,
    part: &str,
    shift: int,
)
    requires
        p.bound_to(at, target, part.components()),
        0 <= at + shift <= usize::MAX,
        0 < target + shift <= usize::MAX,
    ensures
        p.resolved((at + shift) as usize) matches Some(pointer) && pointer.components
            == part.spec_bytes().len() as usize && byte_range(pointer, 1) == (
            target + shift,
            target + shift + pointer.components,
        ),
{
}

} // verus!
