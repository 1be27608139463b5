use vstd::prelude::*;

use crate::mutability::{IsMutable, IsShared, Mutability};

verus! {

/// Conversion out of a value that is generic over mutability, into its shared or its mutable
/// form; each direction needs a proof of what `M` is.
pub trait GenInto<M: Mutability>: Sized {
    /// What the value becomes when `M` is `Shared`.
    type Shared;

    /// What the value becomes when `M` is `Mutable`.
    type Mutable;

    fn into_shared(self, proof: IsShared<M>) -> Self::Shared;

    fn into_mut(self, proof: IsMutable<M>) -> Self::Mutable;
}

/// Conversion into a value that is generic over mutability, from its shared or its mutable
/// form; each direction needs a proof of what `M` is.
pub trait GenFrom<M: Mutability, Sh, Mut>: Sized {
    fn from_shared(from: Sh, proof: IsShared<M>) -> Self;

    fn from_mut(from: Mut, proof: IsMutable<M>) -> Self;
}

} // verus!
