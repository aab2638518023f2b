//! Offset-based pointers for movable self-referential data.
//!
//! A relative pointer stores how far its target lies from the pointer
//! itself. Where both are parts of one object, that distance survives every
//! move of the object, which an absolute address does not.
//!
//! The library works on addresses as numbers. [`offset`] stores the distance
//! between two addresses in a signed integer of a chosen width, [`metadata`]
//! says what a pointer keeps besides an address for each kind of target,
//! [`pointer`] is the relative pointer with its two states, and
//! [`combinators`] holds a cell that owns a value and a pointer to it.

pub mod combinators;
pub mod error;
pub mod metadata;
pub mod offset;
pub mod pointer;

pub use crate::combinators::{CellLayout, SelfRefCell};
pub use crate::error::{IntegerOffsetError, IntegerOffsetErrorImpl};
pub use crate::metadata::{Empty, FatPointer, PointerRecomposition, TraitObject};
pub use crate::offset::{NonZero, Nullable, Offset};
pub use crate::pointer::SelfRef;
