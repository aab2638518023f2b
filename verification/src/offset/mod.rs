//! Distances between addresses, stored in integers of a chosen width.

pub mod delta;
pub mod integers;
pub mod nonzero;

pub use self::delta::{apply, difference, difference_within, pointer_width, Nullable, Offset};
pub use self::nonzero::NonZero;
