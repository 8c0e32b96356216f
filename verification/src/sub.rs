//! Submodules.

use vstd::prelude::*;

use crate::module::ModType;
use crate::ring_traits::RingType;

verus! {

/// An `R`-submodule of the module `M`.  A type claiming this capability
/// stands for a subset of `M` closed under the module operations; the
/// closure itself is a caller obligation, as with the other capabilities.
pub trait SubModule<R: RingType, M: ModType<R>>: ModType<R> {

}

} // verus!
