//! Dynamically dispatched targets.

use vstd::prelude::*;
use crate::metadata::traits::{recompose_counted, FatPointer, PointerRecomposition};

verus! {

/// A target that is reached through a dispatch table, together with the
/// identity of that table.
pub struct TraitObject<T> {
    table: usize,
    target: T,
}

impl<T> TraitObject<T> {
    /// The identity of the dispatch table.
    pub closed spec fn table(&self) -> usize {
        self.table
    }

    /// The target inside.
    pub closed spec fn target(&self) -> T {
        self.target
    }

    /// Wraps a target with the identity of its dispatch table.
    pub fn new(target: T, table: usize) -> (r: Self)
        ensures
            r.target() == target,
            r.table() == table,
    {
        TraitObject { table, target }
    }

    /// The target inside.
    pub fn as_ref(&self) -> (r: &T)
        ensures
            *r == self.target(),
    {
        &self.target
    }

    /// The target inside, for changing it; the dispatch table stays.
    pub fn as_mut(&mut self) -> (r: &mut T)
        ensures
            *r == old(self).target(),
            final(self).target() == *final(r),
            final(self).table() == old(self).table(),
    {
        &mut self.target
    }

    /// Unwraps the target.
    pub fn into_inner(self) -> (r: T)
        ensures
            r == self.target(),
    {
        self.target
    }
}

impl<T> PointerRecomposition for TraitObject<T> {
    type Components = usize;

    open spec fn components(&self) -> usize {
        self.table()
    }

    fn decompose(this: &Self) -> (r: usize) {
        this.table
    }

    fn recompose(ptr: Option<usize>, data: usize) -> (r: Option<FatPointer<usize>>) {
        recompose_counted(ptr, data)
    }

    fn same_components(a: usize, b: usize) -> (r: bool) {
        a == b
    }
}

} // verus!
