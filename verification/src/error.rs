//! Failures of the distance computation.

use vstd::prelude::*;

verus! {

/// Why a distance between two addresses could not be stored.
#[derive(Debug, Clone, Copy, PartialEq, Eq, Structural)]
pub enum IntegerOffsetErrorImpl {
    /// The distance fits a pointer-width signed integer but not the chosen width.
    Conversion(isize),
    /// The two addresses lie farther apart than a pointer-width signed integer can say.
    Sub(usize, usize),
    /// The distance is zero and the chosen type keeps zero for "unbound".
    InvalidNonZero,
}

/// The error of every checked distance computation.
#[derive(Debug, Clone, Copy, PartialEq, Eq, Structural)]
pub struct IntegerOffsetError(pub IntegerOffsetErrorImpl);

impl IntegerOffsetError {
    /// The reason carried by this error.
    pub fn kind(&self) -> (r: IntegerOffsetErrorImpl)
        ensures
            r == self.0,
    {
        self.0
    }
}

} // verus!
