//! What a pointer must keep besides an address, for each kind of target.

pub mod impls;
pub mod trait_object;
pub mod traits;

pub use self::trait_object::TraitObject;
pub use self::traits::{
    non_null, recomposed, spec_non_null, Empty, FatPointer, PointerRecomposition,
};
