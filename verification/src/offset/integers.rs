//! The signed integers as offset types.

use vstd::prelude::*;
use crate::error::{IntegerOffsetError, IntegerOffsetErrorImpl};
use crate::offset::delta::{pointer_width, Nullable, Offset};

verus! {

/// The true distance from `b` to `a` at pointer width, or the failure where
/// the two lie farther apart than that.
pub fn signed_distance(a: usize, b: usize) -> (r: Result<isize, IntegerOffsetError>)
    ensures
        match r {
            Ok(d) => pointer_width(a - b) && d == a - b,
            Err(e) => !pointer_width(a - b) && e == IntegerOffsetError(
                IntegerOffsetErrorImpl::Sub(a, b),
            ),
        },
{
    if a >= b {
        let up: usize = a - b;
        if up > isize::MAX as usize {
            Err(IntegerOffsetError(IntegerOffsetErrorImpl::Sub(a, b)))
        } else {
            Ok(up as isize)
        }
    } else {
        let down: usize = b - a;
        if down - 1 > isize::MAX as usize {
            Err(IntegerOffsetError(IntegerOffsetErrorImpl::Sub(a, b)))
        } else {
            let below: isize = (down - 1) as isize;
            Ok(-1 - below)
        }
    }
}

/// The true distance from `b` to `a`, for two addresses known to lie within
/// pointer width of each other.
pub fn exact_distance(a: usize, b: usize) -> (r: isize)
    requires
        pointer_width(a - b),
    ensures
        r == a - b,
{
    if a >= b {
        (a - b) as isize
    } else {
        let below: isize = (b - a - 1) as isize;
        -1 - below
    }
}

/// The address `d` bytes from `base`.
pub fn shifted(base: usize, d: i128) -> (r: usize)
    requires
        0 <= base + d <= usize::MAX,
    ensures
        r == base + d,
{
    if d >= 0 {
        base + (d as usize)
    } else {
        base - ((-d) as usize)
    }
}

/// Whether `d` bytes from `base` is still an address.
pub fn in_address_space(base: usize, d: i128) -> (r: bool)
    ensures
        r == (0 <= base + d <= usize::MAX),
{
    if d >= 0 {
        d <= (usize::MAX - base) as i128
    } else {
        -(base as i128) <= d
    }
}

/// One byte: the distances from -128 to 127.
impl Offset for i8 {
    open spec fn distance(self) -> int {
        self as int
    }

    open spec fn min_distance() -> int {
        i8::MIN as int
    }

    open spec fn max_distance() -> int {
        i8::MAX as int
    }

    open spec fn excludes_zero() -> bool {
        false
    }

    fn sub(a: usize, b: usize) -> (r: Result<Self, IntegerOffsetError>) {
        match signed_distance(a, b) {
            Err(e) => Err(e),
            Ok(del) => {
                if del < i8::MIN as isize || del > i8::MAX as isize {
                    Err(IntegerOffsetError(IntegerOffsetErrorImpl::Conversion(del)))
                } else {
                    Ok(del as i8)
                }
            },
        }
    }

    fn sub_unchecked(a: usize, b: usize) -> (r: Self) {
        exact_distance(a, b) as i8
    }

    fn add(self, base: usize) -> (r: usize) {
        shifted(base, self as i128)
    }

    fn reaches(self, base: usize) -> (r: bool) {
        in_address_space(base, self as i128)
    }

    fn equals(self, other: Self) -> (r: bool) {
        self == other
    }
}

impl Nullable for i8 {
    proof fn lemma_holds_zero() {
    }

    fn null() -> (r: Self) {
        0
    }
}

/// Two bytes: the distances from -32768 to 32767.
impl Offset for i16 {
    open spec fn distance(self) -> int {
        self as int
    }

    open spec fn min_distance() -> int {
        i16::MIN as int
    }

    open spec fn max_distance() -> int {
        i16::MAX as int
    }

    open spec fn excludes_zero() -> bool {
        false
    }

    fn sub(a: usize, b: usize) -> (r: Result<Self, IntegerOffsetError>) {
        match signed_distance(a, b) {
            Err(e) => Err(e),
            Ok(del) => {
                if del < i16::MIN as isize || del > i16::MAX as isize {
                    Err(IntegerOffsetError(IntegerOffsetErrorImpl::Conversion(del)))
                } else {
                    Ok(del as i16)
                }
            },
        }
    }

    fn sub_unchecked(a: usize, b: usize) -> (r: Self) {
        exact_distance(a, b) as i16
    }

    fn add(self, base: usize) -> (r: usize) {
        shifted(base, self as i128)
    }

    fn reaches(self, base: usize) -> (r: bool) {
        in_address_space(base, self as i128)
    }

    fn equals(self, other: Self) -> (r: bool) {
        self == other
    }
}

impl Nullable for i16 {
    proof fn lemma_holds_zero() {
    }

    fn null() -> (r: Self) {
        0
    }
}

/// Four bytes; narrower than a pointer only where pointers have eight.
impl Offset for i32 {
    open spec fn distance(self) -> int {
        self as int
    }

    open spec fn min_distance() -> int {
        i32::MIN as int
    }

    open spec fn max_distance() -> int {
        i32::MAX as int
    }

    open spec fn excludes_zero() -> bool {
        false
    }

    fn sub(a: usize, b: usize) -> (r: Result<Self, IntegerOffsetError>) {
        match signed_distance(a, b) {
            Err(e) => Err(e),
            Ok(del) => {
                if del < i32::MIN as isize || del > i32::MAX as isize {
                    Err(IntegerOffsetError(IntegerOffsetErrorImpl::Conversion(del)))
                } else {
                    Ok(del as i32)
                }
            },
        }
    }

    fn sub_unchecked(a: usize, b: usize) -> (r: Self) {
        exact_distance(a, b) as i32
    }

    fn add(self, base: usize) -> (r: usize) {
        shifted(base, self as i128)
    }

    fn reaches(self, base: usize) -> (r: bool) {
        in_address_space(base, self as i128)
    }

    fn equals(self, other: Self) -> (r: bool) {
        self == other
    }
}

impl Nullable for i32 {
    proof fn lemma_holds_zero() {
    }

    fn null() -> (r: Self) {
        0
    }
}

/// Eight bytes: every distance of pointer width.
impl Offset for i64 {
    open spec fn distance(self) -> int {
        self as int
    }

    open spec fn min_distance() -> int {
        i64::MIN as int
    }

    open spec fn max_distance() -> int {
        i64::MAX as int
    }

    open spec fn excludes_zero() -> bool {
        false
    }

    fn sub(a: usize, b: usize) -> (r: Result<Self, IntegerOffsetError>) {
        match signed_distance(a, b) {
            Err(e) => Err(e),
            Ok(del) => Ok(del as i64),
        }
    }

    fn sub_unchecked(a: usize, b: usize) -> (r: Self) {
        exact_distance(a, b) as i64
    }

    fn add(self, base: usize) -> (r: usize) {
        shifted(base, self as i128)
    }

    fn reaches(self, base: usize) -> (r: bool) {
        in_address_space(base, self as i128)
    }

    fn equals(self, other: Self) -> (r: bool) {
        self == other
    }
}

impl Nullable for i64 {
    proof fn lemma_holds_zero() {
    }

    fn null() -> (r: Self) {
        0
    }
}

/// Sixteen bytes: every distance of pointer width.
impl Offset for i128 {
    open spec fn distance(self) -> int {
        self as int
    }

    open spec fn min_distance() -> int {
        i128::MIN as int
    }

    open spec fn max_distance() -> int {
        i128::MAX as int
    }

    open spec fn excludes_zero() -> bool {
        false
    }

    fn sub(a: usize, b: usize) -> (r: Result<Self, IntegerOffsetError>) {
        match signed_distance(a, b) {
            Err(e) => Err(e),
            Ok(del) => Ok(del as i128),
        }
    }

    fn sub_unchecked(a: usize, b: usize) -> (r: Self) {
        exact_distance(a, b) as i128
    }

    fn add(self, base: usize) -> (r: usize) {
        shifted(base, self as i128)
    }

    fn reaches(self, base: usize) -> (r: bool) {
        in_address_space(base, self as i128)
    }

    fn equals(self, other: Self) -> (r: bool) {
        self == other
    }
}

impl Nullable for i128 {
    proof fn lemma_holds_zero() {
    }

    fn null() -> (r: Self) {
        0
    }
}

/// Pointer width itself.
impl Offset for isize {
    open spec fn distance(self) -> int {
        self as int
    }

    open spec fn min_distance() -> int {
        isize::MIN as int
    }

    open spec fn max_distance() -> int {
        isize::MAX as int
    }

    open spec fn excludes_zero() -> bool {
        false
    }

    fn sub(a: usize, b: usize) -> (r: Result<Self, IntegerOffsetError>) {
        match signed_distance(a, b) {
            Err(e) => Err(e),
            Ok(del) => Ok(del as isize),
        }
    }

    fn sub_unchecked(a: usize, b: usize) -> (r: Self) {
        exact_distance(a, b) as isize
    }

    fn add(self, base: usize) -> (r: usize) {
        shifted(base, self as i128)
    }

    fn reaches(self, base: usize) -> (r: bool) {
        in_address_space(base, self as i128)
    }

    fn equals(self, other: Self) -> (r: bool) {
        self == other
    }
}

impl Nullable for isize {
    proof fn lemma_holds_zero() {
    }

    fn null() -> (r: Self) {
        0
    }
}

} // verus!
