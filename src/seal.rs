use vstd::prelude::*;

use crate::mutability::{Mutable, Shared};

verus! {

/// Private supertrait of `Mutability`: only the two markers of this crate implement it, so
/// no third mutability can ever be introduced.
///
/// It also carries the specification-level answer to "is this marker mutable?", which the
/// proof tokens rely on.
pub trait Sealed {
    /// Whether this marker stands for exclusive, mutation-capable access.
    spec fn spec_is_mutable() -> bool;
}

impl Sealed for Shared {
    open spec fn spec_is_mutable() -> bool {
        false
    }
}

impl Sealed for Mutable {
    open spec fn spec_is_mutable() -> bool {
        true
    }
}

} // verus!
