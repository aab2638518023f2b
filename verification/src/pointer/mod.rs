//! The relative pointer.

pub mod laws;
pub mod operations;
pub mod self_ref;

pub use self::self_ref::SelfRef;
