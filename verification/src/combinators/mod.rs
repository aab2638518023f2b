//! Ready-made owners built on the relative pointer.

pub mod self_ref_cell;

pub use self::self_ref_cell::{CellLayout, SelfRefCell};
