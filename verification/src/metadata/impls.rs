//! The kinds of target that come with the library.

use vstd::prelude::*;
use vstd::string::StringSliceAdditionalSpecFns;
use crate::metadata::traits::{
    recompose_counted, recompose_sized, Empty, FatPointer, PointerRecomposition,
};

verus! {

impl<T: ?Sized> PointerRecomposition for &T {
    type Components = Empty;

    open spec fn components(&self) -> Empty {
        Empty
    }

    fn decompose(this: &Self) -> (r: Empty) {
        Empty
    }

    fn recompose(ptr: Option<usize>, data: Empty) -> (r: Option<FatPointer<Empty>>) {
        recompose_sized(ptr)
    }

    fn same_components(a: Empty, b: Empty) -> (r: bool) {
        true
    }
}

impl<T: ?Sized> PointerRecomposition for &mut T {
    type Components = Empty;

    open spec fn components(&self) -> Empty {
        Empty
    }

    fn decompose(this: &Self) -> (r: Empty) {
        Empty
    }

    fn recompose(ptr: Option<usize>, data: Empty) -> (r: Option<FatPointer<Empty>>) {
        recompose_sized(ptr)
    }

    fn same_components(a: Empty, b: Empty) -> (r: bool) {
        true
    }
}

impl PointerRecomposition for u8 {
    type Components = Empty;

    open spec fn components(&self) -> Empty {
        Empty
    }

    fn decompose(this: &Self) -> (r: Empty) {
        Empty
    }

    fn recompose(ptr: Option<usize>, data: Empty) -> (r: Option<FatPointer<Empty>>) {
        recompose_sized(ptr)
    }

    fn same_components(a: Empty, b: Empty) -> (r: bool) {
        true
    }
}

impl PointerRecomposition for u16 {
    type Components = Empty;

    open spec fn components(&self) -> Empty {
        Empty
    }

    fn decompose(this: &Self) -> (r: Empty) {
        Empty
    }

    fn recompose(ptr: Option<usize>, data: Empty) -> (r: Option<FatPointer<Empty>>) {
        recompose_sized(ptr)
    }

    fn same_components(a: Empty, b: Empty) -> (r: bool) {
        true
    }
}

impl PointerRecomposition for u32 {
    type Components = Empty;

    open spec fn components(&self) -> Empty {
        Empty
    }

    fn decompose(this: &Self) -> (r: Empty) {
        Empty
    }

    fn recompose(ptr: Option<usize>, data: Empty) -> (r: Option<FatPointer<Empty>>) {
        recompose_sized(ptr)
    }

    fn same_components(a: Empty, b: Empty) -> (r: bool) {
        true
    }
}

impl PointerRecomposition for u64 {
    type Components = Empty;

    open spec fn components(&self) -> Empty {
        Empty
    }

    fn decompose(this: &Self) -> (r: Empty) {
        Empty
    }

    fn recompose(ptr: Option<usize>, data: Empty) -> (r: Option<FatPointer<Empty>>) {
        recompose_sized(ptr)
    }

    fn same_components(a: Empty, b: Empty) -> (r: bool) {
        true
    }
}

impl PointerRecomposition for u128 {
    type Components = Empty;

    open spec fn components(&self) -> Empty {
        Empty
    }

    fn decompose(this: &Self) -> (r: Empty) {
        Empty
    }

    fn recompose(ptr: Option<usize>, data: Empty) -> (r: Option<FatPointer<Empty>>) {
        recompose_sized(ptr)
    }

    fn same_components(a: Empty, b: Empty) -> (r: bool) {
        true
    }
}

impl PointerRecomposition for usize {
    type Components = Empty;

    open spec fn components(&self) -> Empty {
        Empty
    }

    fn decompose(this: &Self) -> (r: Empty) {
        Empty
    }

    fn recompose(ptr: Option<usize>, data: Empty) -> (r: Option<FatPointer<Empty>>) {
        recompose_sized(ptr)
    }

    fn same_components(a: Empty, b: Empty) -> (r: bool) {
        true
    }
}

impl PointerRecomposition for i8 {
    type Components = Empty;

    open spec fn components(&self) -> Empty {
        Empty
    }

    fn decompose(this: &Self) -> (r: Empty) {
        Empty
    }

    fn recompose(ptr: Option<usize>, data: Empty) -> (r: Option<FatPointer<Empty>>) {
        recompose_sized(ptr)
    }

    fn same_components(a: Empty, b: Empty) -> (r: bool) {
        true
    }
}

impl PointerRecomposition for i16 {
    type Components = Empty;

    open spec fn components(&self) -> Empty {
        Empty
    }

    fn decompose(this: &Self) -> (r: Empty) {
        Empty
    }

    fn recompose(ptr: Option<usize>, data: Empty) -> (r: Option<FatPointer<Empty>>) {
        recompose_sized(ptr)
    }

    fn same_components(a: Empty, b: Empty) -> (r: bool) {
        true
    }
}

impl PointerRecomposition for i32 {
    type Components = Empty;

    open spec fn components(&self) -> Empty {
        Empty
    }

    fn decompose(this: &Self) -> (r: Empty) {
        Empty
    }

    fn recompose(ptr: Option<usize>, data: Empty) -> (r: Option<FatPointer<Empty>>) {
        recompose_sized(ptr)
    }

    fn same_components(a: Empty, b: Empty) -> (r: bool) {
        true
    }
}

impl PointerRecomposition for i64 {
    type Components = Empty;

    open spec fn components(&self) -> Empty {
        Empty
    }

    fn decompose(this: &Self) -> (r: Empty) {
        Empty
    }

    fn recompose(ptr: Option<usize>, data: Empty) -> (r: Option<FatPointer<Empty>>) {
        recompose_sized(ptr)
    }

    fn same_components(a: Empty, b: Empty) -> (r: bool) {
        true
    }
}

impl PointerRecomposition for i128 {
    type Components = Empty;

    open spec fn components(&self) -> Empty {
        Empty
    }

    fn decompose(this: &Self) -> (r: Empty) {
        Empty
    }

    fn recompose(ptr: Option<usize>, data: Empty) -> (r: Option<FatPointer<Empty>>) {
        recompose_sized(ptr)
    }

    fn same_components(a: Empty, b: Empty) -> (r: bool) {
        true
    }
}

impl PointerRecomposition for isize {
    type Components = Empty;

    open spec fn components(&self) -> Empty {
        Empty
    }

    fn decompose(this: &Self) -> (r: Empty) {
        Empty
    }

    fn recompose(ptr: Option<usize>, data: Empty) -> (r: Option<FatPointer<Empty>>) {
        recompose_sized(ptr)
    }

    fn same_components(a: Empty, b: Empty) -> (r: bool) {
        true
    }
}

impl PointerRecomposition for bool {
    type Components = Empty;

    open spec fn components(&self) -> Empty {
        Empty
    }

    fn decompose(this: &Self) -> (r: Empty) {
        Empty
    }

    fn recompose(ptr: Option<usize>, data: Empty) -> (r: Option<FatPointer<Empty>>) {
        recompose_sized(ptr)
    }

    fn same_components(a: Empty, b: Empty) -> (r: bool) {
        true
    }
}

impl PointerRecomposition for char {
    type Components = Empty;

    open spec fn components(&self) -> Empty {
        Empty
    }

    fn decompose(this: &Self) -> (r: Empty) {
        Empty
    }

    fn recompose(ptr: Option<usize>, data: Empty) -> (r: Option<FatPointer<Empty>>) {
        recompose_sized(ptr)
    }

    fn same_components(a: Empty, b: Empty) -> (r: bool) {
        true
    }
}

impl<T, const N: usize> PointerRecomposition for [T; N] {
    type Components = Empty;

    open spec fn components(&self) -> Empty {
        Empty
    }

    fn decompose(this: &Self) -> (r: Empty) {
        Empty
    }

    fn recompose(ptr: Option<usize>, data: Empty) -> (r: Option<FatPointer<Empty>>) {
        recompose_sized(ptr)
    }

    fn same_components(a: Empty, b: Empty) -> (r: bool) {
        true
    }
}

impl<T> PointerRecomposition for Option<T> {
    type Components = Empty;

    open spec fn components(&self) -> Empty {
        Empty
    }

    fn decompose(this: &Self) -> (r: Empty) {
        Empty
    }

    fn recompose(ptr: Option<usize>, data: Empty) -> (r: Option<FatPointer<Empty>>) {
        recompose_sized(ptr)
    }

    fn same_components(a: Empty, b: Empty) -> (r: bool) {
        true
    }
}

impl<T, E> PointerRecomposition for Result<T, E> {
    type Components = Empty;

    open spec fn components(&self) -> Empty {
        Empty
    }

    fn decompose(this: &Self) -> (r: Empty) {
        Empty
    }

    fn recompose(ptr: Option<usize>, data: Empty) -> (r: Option<FatPointer<Empty>>) {
        recompose_sized(ptr)
    }

    fn same_components(a: Empty, b: Empty) -> (r: bool) {
        true
    }
}

impl<T> PointerRecomposition for Vec<T> {
    type Components = Empty;

    open spec fn components(&self) -> Empty {
        Empty
    }

    fn decompose(this: &Self) -> (r: Empty) {
        Empty
    }

    fn recompose(ptr: Option<usize>, data: Empty) -> (r: Option<FatPointer<Empty>>) {
        recompose_sized(ptr)
    }

    fn same_components(a: Empty, b: Empty) -> (r: bool) {
        true
    }
}

impl PointerRecomposition for String {
    type Components = Empty;

    open spec fn components(&self) -> Empty {
        Empty
    }

    fn decompose(this: &Self) -> (r: Empty) {
        Empty
    }

    fn recompose(ptr: Option<usize>, data: Empty) -> (r: Option<FatPointer<Empty>>) {
        recompose_sized(ptr)
    }

    fn same_components(a: Empty, b: Empty) -> (r: bool) {
        true
    }
}

impl PointerRecomposition for () {
    type Components = Empty;

    open spec fn components(&self) -> Empty {
        Empty
    }

    fn decompose(this: &Self) -> (r: Empty) {
        Empty
    }

    fn recompose(ptr: Option<usize>, data: Empty) -> (r: Option<FatPointer<Empty>>) {
        recompose_sized(ptr)
    }

    fn same_components(a: Empty, b: Empty) -> (r: bool) {
        true
    }
}

impl<A> PointerRecomposition for (A,) {
    type Components = Empty;

    open spec fn components(&self) -> Empty {
        Empty
    }

    fn decompose(this: &Self) -> (r: Empty) {
        Empty
    }

    fn recompose(ptr: Option<usize>, data: Empty) -> (r: Option<FatPointer<Empty>>) {
        recompose_sized(ptr)
    }

    fn same_components(a: Empty, b: Empty) -> (r: bool) {
        true
    }
}

impl<A, B> PointerRecomposition for (A, B) {
    type Components = Empty;

    open spec fn components(&self) -> Empty {
        Empty
    }

    fn decompose(this: &Self) -> (r: Empty) {
        Empty
    }

    fn recompose(ptr: Option<usize>, data: Empty) -> (r: Option<FatPointer<Empty>>) {
        recompose_sized(ptr)
    }

    fn same_components(a: Empty, b: Empty) -> (r: bool) {
        true
    }
}

impl<A, B, C> PointerRecomposition for (A, B, C) {
    type Components = Empty;

    open spec fn components(&self) -> Empty {
        Empty
    }

    fn decompose(this: &Self) -> (r: Empty) {
        Empty
    }

    fn recompose(ptr: Option<usize>, data: Empty) -> (r: Option<FatPointer<Empty>>) {
        recompose_sized(ptr)
    }

    fn same_components(a: Empty, b: Empty) -> (r: bool) {
        true
    }
}

impl<T> PointerRecomposition for [T] {
    type Components = usize;

    open spec fn components(&self) -> usize {
        self@.len() as usize
    }

    fn decompose(this: &Self) -> (r: usize) {
        this.len()
    }

    fn recompose(ptr: Option<usize>, data: usize) -> (r: Option<FatPointer<usize>>) {
        recompose_counted(ptr, data)
    }

    fn same_components(a: usize, b: usize) -> (r: bool) {
        a == b
    }
}

impl PointerRecomposition for str {
    type Components = usize;

    open spec fn components(&self) -> usize {
        self.spec_bytes().len() as usize
    }

    fn decompose(this: &Self) -> (r: usize) {
        this.len()
    }

    fn recompose(ptr: Option<usize>, data: usize) -> (r: Option<FatPointer<usize>>) {
        recompose_counted(ptr, data)
    }

    fn same_components(a: usize, b: usize) -> (r: bool) {
        a == b
    }
}

} // verus!
