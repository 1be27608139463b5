use vstd::prelude::*;

use crate::genref::GenRef;
use crate::mutability::{Mutability, MutabilityEnum};

verus! {

/// A reference whose mutability is known only at run time: the dynamic counterpart of
/// `GenRef`.
///
/// It is obtained from any `GenRef` with `From`, and turned back into a `GenRef` of a chosen
/// mutability with `TryFrom`, which fails when the variant does not match.
pub enum GenRefEnum<'s, T> {
    Mutable(&'s mut T),
    Immutable(&'s T),
}

impl<'s, T> GenRefEnum<'s, T> {
    /// The referenced value.
    pub open spec fn value(self) -> T {
        match self {
            GenRefEnum::Mutable(r) => *r,
            GenRefEnum::Immutable(r) => *r,
        }
    }
}

/// The error of converting a `GenRefEnum` into a `GenRef` whose mutability differs from the
/// variant.
///
/// Converting a `GenRefEnum::Mutable` into a `GenRef<'_, Shared, T>` would be sound, but it is
/// refused as well: such a downgrade has to be asked for explicitly.
#[derive(Clone, Copy, Debug, PartialEq, Eq, Structural)]
pub struct IncorrectMutability {
    target_mutable: bool,
}

impl IncorrectMutability {
    /// Whether the requested `GenRef` was `Mutable` (and the `GenRefEnum` `Immutable`).
    pub closed spec fn spec_target_mutable(self) -> bool {
        self.target_mutable
    }

    /// Returns whether the requested `GenRef` was `Mutable`.
    pub fn target_mutable(&self) -> (r: bool)
        ensures
            r == self.spec_target_mutable(),
    {
        self.target_mutable
    }

    /// A short name of the error, saying which way the conversion went.
    pub fn description(&self) -> (r: &'static str)
        ensures
            r@ == if self.spec_target_mutable() {
                "IncorrectMutability(immut -> mut)"@
            } else {
                "IncorrectMutability(mut -> immut)"@
            },
    {
        if self.target_mutable {
            "IncorrectMutability(immut -> mut)"
        } else {
            "IncorrectMutability(mut -> immut)"
        }
    }

    /// A full message naming the expected and the found variant.
    pub fn message(&self) -> (r: &'static str)
        ensures
            r@ == if self.spec_target_mutable() {
                "Failed to convert GenRefEnum<'_, T> into GenRef<'_, Mutable, T>:\nMutability of target differs from source\n\nExpected enum variant GenRefEnum::Mutable\n   Found enum variant GenRefEnum::Immutable"@
            } else {
                "Failed to convert GenRefEnum<'_, T> into GenRef<'_, Immutable, T>:\nMutability of target differs from source\n\nExpected enum variant GenRefEnum::Immutable\n   Found enum variant GenRefEnum::Mutable"@
            },
    {
        if self.target_mutable {
            "Failed to convert GenRefEnum<'_, T> into GenRef<'_, Mutable, T>:\nMutability of target differs from source\n\nExpected enum variant GenRefEnum::Mutable\n   Found enum variant GenRefEnum::Immutable"
        } else {
            "Failed to convert GenRefEnum<'_, T> into GenRef<'_, Immutable, T>:\nMutability of target differs from source\n\nExpected enum variant GenRefEnum::Immutable\n   Found enum variant GenRefEnum::Mutable"
        }
    }
}

/// Erases the static mutability of a `GenRef`; this never fails.
impl<'s, M: Mutability, T> From<GenRef<'s, M, T>> for GenRefEnum<'s, T> {
    fn from(genref: GenRef<'s, M, T>) -> (e: Self)
        ensures
            e is Mutable <==> M::spec_is_mutable(),
            e.value() == genref.value(),
            M::spec_is_mutable() ==> *final(e->Mutable_0) == *final(genref.mut_ref()),
            !M::spec_is_mutable() ==> e->Immutable_0 == genref.shared_ref(),
    {
        let on_mut = |r: &'s mut T, u: ()| -> (e: GenRefEnum<'s, T>)
            ensures
                e is Mutable,
                *e->Mutable_0 == *old(r),
                *final(e->Mutable_0) == *final(r),
        {
            GenRefEnum::Mutable(r)
        };
        let on_shared = |r: &'s T, u: ()| -> (e: GenRefEnum<'s, T>)
            ensures
                e == GenRefEnum::Immutable(r),
        {
            GenRefEnum::Immutable(r)
        };
        GenRef::dispatch(genref, (), on_mut, on_shared)
    }
}

impl<'s, M: Mutability, T> vstd::std_specs::convert::FromSpecImpl<GenRef<'s, M, T>> for GenRefEnum<'s, T> {
    open spec fn obeys_from_spec() -> bool {
        false
    }

    open spec fn from_spec(v: GenRef<'s, M, T>) -> Self {
        arbitrary()
    }
}

/// Recovers a `GenRef` of mutability `M` from a `GenRefEnum`, when the variant matches `M`.
impl<'s, M: Mutability, T> TryFrom<GenRefEnum<'s, T>> for GenRef<'s, M, T> {
    type Error = IncorrectMutability;

    fn try_from(genref_enum: GenRefEnum<'s, T>) -> (r: Result<Self, IncorrectMutability>)
        ensures
            r is Ok <==> (genref_enum is Mutable <==> M::spec_is_mutable()),
            r matches Ok(g) ==> g.value() == genref_enum.value(),
            r is Ok && M::spec_is_mutable() ==> *final(r->Ok_0.mut_ref()) == *final(genref_enum->Mutable_0),
            r is Ok && !M::spec_is_mutable() ==> r->Ok_0.shared_ref() == genref_enum->Immutable_0,
            r matches Err(err) ==> err.spec_target_mutable() == M::spec_is_mutable(),
    {
        match (M::mutability(), genref_enum) {
            (MutabilityEnum::Mutable(proof), GenRefEnum::Mutable(r)) => Ok(GenRef::gen_from_mut(r, proof)),
            (MutabilityEnum::Shared(proof), GenRefEnum::Immutable(r)) => Ok(GenRef::gen_from_shared(r, proof)),
            _ => Err(IncorrectMutability { target_mutable: M::is_mutable() }),
        }
    }
}

impl<'s, M: Mutability, T> vstd::std_specs::convert::TryFromSpecImpl<GenRefEnum<'s, T>> for GenRef<'s, M, T> {
    open spec fn obeys_try_from_spec() -> bool {
        false
    }

    open spec fn try_from_spec(v: GenRefEnum<'s, T>) -> Result<Self, IncorrectMutability> {
        arbitrary()
    }
}

} // verus!
