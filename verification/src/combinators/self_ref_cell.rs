//! A cell that owns a value and a pointer to that same value.

use vstd::prelude::*;
use crate::error::IntegerOffsetError;
use crate::metadata::traits::{FatPointer, PointerRecomposition};
use crate::offset::delta::{difference, Nullable, Offset};
use crate::pointer::self_ref::SelfRef;

verus! {

/// Where the two parts of a cell lie, in bytes from the cell's first byte.
#[derive(Clone, Copy, Debug, PartialEq, Eq, Structural)]
pub struct CellLayout {
    /// Where the value starts.
    pub value_offset: usize,
    /// Where the pointer starts.
    pub ptr_offset: usize,
}

/// A value together with a bound pointer to it.
///
/// The cell may lie anywhere: its pointer stores only how far the value is
/// from the pointer, which the layout fixes once and for all.
pub struct SelfRefCell<T: PointerRecomposition, I: Offset = isize> {
    value: T,
    ptr: SelfRef<T, I>,
    layout: CellLayout,
}

impl<T: PointerRecomposition, I: Nullable> SelfRefCell<T, I> {
    /// The value that the cell owns.
    pub closed spec fn value(&self) -> T {
        self.value
    }

    /// The pointer to the value.
    pub closed spec fn pointer(&self) -> SelfRef<T, I> {
        self.ptr
    }

    /// Where the parts of the cell lie.
    pub closed spec fn layout(&self) -> CellLayout {
        self.layout
    }

    /// The pointer is bound and spans exactly the way from its own place in
    /// the cell to the value's.
    pub open spec fn wf(&self) -> bool {
        &&& self.pointer().ready()
        &&& self.pointer().stored_offset().distance() == self.layout().value_offset
            - self.layout().ptr_offset
        &&& self.pointer().recorded() is None
    }

    /// Whether a cell of this layout can lie at `base`: both parts have
    /// addresses, the value does not lie at address zero, and the pointer
    /// lies within pointer width of the base.
    pub open spec fn fits_at(&self, base: usize) -> bool {
        &&& base + self.layout().value_offset <= usize::MAX
        &&& base + self.layout().ptr_offset <= usize::MAX
        &&& base + self.layout().value_offset != 0
        &&& self.layout().ptr_offset <= isize::MAX
    }

    /// A cell around `value`, laid out as `layout` says.
    ///
    /// Fails, with nothing built, where the offset type cannot hold the way
    /// from the pointer to the value.
    pub fn new(value: T, layout: CellLayout) -> (r: Result<Self, IntegerOffsetError>)
        ensures
            match difference::<I>(layout.value_offset, layout.ptr_offset) {
                Ok(d) => {
                    &&& r matches Ok(cell)
                    &&& cell.wf()
                    &&& cell.value() == value
                    &&& cell.layout() == layout
                    &&& cell.pointer().stored_components() == value.components()
                },
                Err(e) => r matches Err(f) && f == e,
            },
    {
        let mut ptr: SelfRef<T, I> = SelfRef::null();
        match ptr.set(layout.ptr_offset, layout.value_offset, &value) {
            Err(e) => Err(e),
            Ok(()) => Ok(SelfRefCell { value, ptr, layout }),
        }
    }

    /// The value, reached through the pointer of the cell that lies at `base`.
    pub fn get(&self, base: usize) -> (r: &T)
        requires
            self.wf(),
            self.fits_at(base),
        ensures
            *r == self.value(),
            self.pointer().target_from((base + self.layout().ptr_offset) as usize) == base
                + self.layout().value_offset,
    {
        self.try_get(base).unwrap()
    }

    /// The value, reached through the pointer of the cell that lies at
    /// `base`; absent while the pointer is unbound.
    pub fn try_get(&self, base: usize) -> (r: Option<&T>)
        requires
            self.pointer().ready() ==> self.wf() && self.fits_at(base),
        ensures
            match r {
                Some(v) => {
                    &&& self.pointer().ready()
                    &&& *v == self.value()
                    &&& self.pointer().target_from((base + self.layout().ptr_offset) as usize)
                        == base + self.layout().value_offset
                },
                None => !self.pointer().ready(),
            },
    {
        if !self.ptr.is_ready() {
            return None;
        }
        let at: usize = base + self.layout.ptr_offset;
        let target = self.ptr.get_ref_from_base_unchecked(at, base);
        assert(target.address == base + self.layout.value_offset);
        Some(&self.value)
    }

    /// The value, for changing it, reached through the pointer of the cell
    /// that lies at `base`.
    pub fn get_mut(&mut self, base: usize) -> (r: &mut T)
        requires
            old(self).wf(),
            old(self).fits_at(base),
        ensures
            *r == old(self).value(),
            final(self).value() == *final(r),
            final(self).pointer() == old(self).pointer(),
            final(self).layout() == old(self).layout(),
            final(self).wf(),
    {
        self.try_get_mut(base).unwrap()
    }

    /// The value, for changing it, reached through the pointer of the cell
    /// that lies at `base`; absent while the pointer is unbound.
    pub fn try_get_mut(&mut self, base: usize) -> (r: Option<&mut T>)
        requires
            old(self).pointer().ready() ==> old(self).wf() && old(self).fits_at(base),
        ensures
            match r {
                Some(v) => {
                    &&& old(self).pointer().ready()
                    &&& *v == old(self).value()
                    &&& final(self).value() == *final(v)
                    &&& final(self).pointer() == old(self).pointer()
                    &&& final(self).layout() == old(self).layout()
                },
                None => !old(self).pointer().ready() && *final(self) == *old(self),
            },
    {
        if !self.ptr.is_ready() {
            return None;
        }
        let at: usize = base + self.layout.ptr_offset;
        let target = self.ptr.get_mut_from_base_unchecked(at, base);
        assert(target.address == base + self.layout.value_offset);
        Some(&mut self.value)
    }

    /// Gives the value back and drops the pointer.
    pub fn into_inner(self) -> (r: T)
        ensures
            r == self.value(),
    {
        self.value
    }
}

/// Wherever a cell lies, its pointer leads to its value: for every `base`
/// at which the cell fits, the pointer resolves, from its own place in the
/// cell, to the place of the value in the cell.
pub proof fn lemma_cell_follows<T: PointerRecomposition, I: Nullable>(
    cell: SelfRefCell<T, I>,
    base: usize,
)
    requires
        cell.wf(),
        cell.fits_at(base),
    ensures
        cell.pointer().resolved((base + cell.layout().ptr_offset) as usize) == Some(
            FatPointer {
                address: (base + cell.layout().value_offset) as usize,
                components: cell.pointer().stored_components(),
            },
        ),
{
}

} // verus!
