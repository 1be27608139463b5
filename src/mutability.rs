use vstd::prelude::*;

use core::marker::PhantomData;

use crate::seal::Sealed;

verus! {

/// Bound for generic mutability parameters.
///
/// Exactly two types implement it, `Shared` and `Mutable`; the private supertrait keeps any
/// other type from doing so.
pub trait Mutability: Copy + Sized + Sealed {
    /// Returns whether this marker is `Mutable`.
    fn is_mutable() -> (r: bool)
        ensures
            r == Self::spec_is_mutable(),
    ;

    /// Returns a proof about this marker that can be matched on.
    fn mutability() -> (r: MutabilityEnum<Self>)
        ensures
            r is Mutable <==> Self::spec_is_mutable(),
    ;
}

/// The mutability of a shared reference, `&T`.
///
/// It has no public constructor and is never built: it only serves as a type argument.
#[derive(Clone, Copy)]
pub struct Shared {
    _never: (),
}

/// The mutability of an exclusive reference, `&mut T`.
///
/// It has no public constructor and is never built: it only serves as a type argument.
#[derive(Clone, Copy)]
pub struct Mutable {
    _never: (),
}

impl Mutability for Shared {
    fn is_mutable() -> (r: bool) {
        false
    }

    fn mutability() -> (r: MutabilityEnum<Self>) {
        MutabilityEnum::Shared(IsShared { _mutability: PhantomData })
    }
}

impl Shared {
    /// The proof that `Shared` is shared, available without going through a match.
    pub fn mutability() -> (r: IsShared<Shared>) {
        IsShared::new()
    }
}

impl Mutability for Mutable {
    fn is_mutable() -> (r: bool) {
        true
    }

    fn mutability() -> (r: MutabilityEnum<Self>) {
        MutabilityEnum::Mutable(IsMutable { _mutability: PhantomData })
    }
}

impl Mutable {
    /// The proof that `Mutable` is mutable, available without going through a match.
    pub fn mutability() -> (r: IsMutable<Mutable>) {
        IsMutable::new()
    }
}

/// A value of this type exists only when `M` is `Mutable`.
///
/// It is obtained by matching on `M::mutability()`, or from `Mutable::mutability()`.
pub struct IsMutable<M: Sealed> {
    _mutability: PhantomData<M>,
}

impl<M: Sealed> IsMutable<M> {
    #[verifier::type_invariant]
    pub(crate) open spec fn only_for_mutable(self) -> bool {
        M::spec_is_mutable()
    }

    pub(crate) fn new() -> (r: Self)
        requires
            M::spec_is_mutable(),
    {
        IsMutable { _mutability: PhantomData }
    }

}

impl<M: Sealed> Clone for IsMutable<M> {
    fn clone(&self) -> (r: Self) {
        *self
    }
}

impl<M: Sealed> Copy for IsMutable<M> {

}

/// A value of this type exists only when `M` is `Shared`.
///
/// It is obtained by matching on `M::mutability()`, or from `Shared::mutability()`.
pub struct IsShared<M: Sealed> {
    _mutability: PhantomData<M>,
}

impl<M: Sealed> IsShared<M> {
    #[verifier::type_invariant]
    pub(crate) open spec fn only_for_shared(self) -> bool {
        !M::spec_is_mutable()
    }

    pub(crate) fn new() -> (r: Self)
        requires
            !M::spec_is_mutable(),
    {
        IsShared { _mutability: PhantomData }
    }

}

impl<M: Sealed> Clone for IsShared<M> {
    fn clone(&self) -> (r: Self) {
        *self
    }
}

impl<M: Sealed> Copy for IsShared<M> {

}

/// Lets code branch on a mutability parameter and carry a proof of the branch taken.
pub enum MutabilityEnum<M: Sealed> {
    /// `M` is `Mutable`.
    Mutable(IsMutable<M>),
    /// `M` is `Shared`.
    Shared(IsShared<M>),
}

impl<M: Sealed> Clone for MutabilityEnum<M> {
    fn clone(&self) -> (r: Self)
        ensures
            r == *self,
    {
        match self {
            MutabilityEnum::Mutable(p) => MutabilityEnum::Mutable(*p),
            MutabilityEnum::Shared(p) => MutabilityEnum::Shared(*p),
        }
    }
}

impl<M: Sealed> Copy for MutabilityEnum<M> {

}

} // verus!
