use vstd::prelude::*;

use core::marker::PhantomData;

use crate::conv_traits::{GenFrom, GenInto};
use crate::genref::GenRef;
use crate::mutability::{IsMutable, IsShared, Mutability};

verus! {

/// What a `GenStruct` holds: the shared form or the mutable form.
enum Contents<Sh, Mut> {
    Shared(Sh),
    Mutable(Mut),
}

/// Holds a `Sh` when `M` is `Shared` and a `Mut` when `M` is `Mutable`.
///
/// This lets a struct that is generic over mutability hold, for instance, a `&'a [T]` or a
/// `&'a mut [T]` in one field.
pub struct GenStruct<M: Mutability, Sh, Mut> {
    contents: Contents<Sh, Mut>,
    _mutability: PhantomData<M>,
}

impl<M: Mutability, Sh, Mut> GenStruct<M, Sh, Mut> {
    #[verifier::type_invariant]
    spec fn contents_match_marker(self) -> bool {
        self.contents is Mutable <==> M::spec_is_mutable()
    }

    /// The value held, when `M` is `Shared`.
    pub closed spec fn shared_value(self) -> Sh {
        match self.contents {
            Contents::Shared(x) => x,
            Contents::Mutable(_) => arbitrary(),
        }
    }

    /// The value held, when `M` is `Mutable`.
    pub closed spec fn mutable_value(self) -> Mut {
        match self.contents {
            Contents::Shared(_) => arbitrary(),
            Contents::Mutable(x) => x,
        }
    }

    /// Wraps a reference to a `GenStruct`, so that it can be converted into a reference to the
    /// value held (see the `GenInto` impl of `GenStructAsRef`).
    pub fn as_ref<'s, MOuter: Mutability>(gen_struct: GenRef<'s, MOuter, GenStruct<M, Sh, Mut>>) -> (r:
        GenStructAsRef<GenRef<'s, MOuter, GenStruct<M, Sh, Mut>>>)
        ensures
            r.inner() == gen_struct,
    {
        GenStructAsRef(gen_struct)
    }
}

impl<M: Mutability, Sh, Mut> GenInto<M> for GenStruct<M, Sh, Mut> {
    type Shared = Sh;

    type Mutable = Mut;

    fn into_shared(self, proof: IsShared<M>) -> (r: Sh)
        ensures
            r == self.shared_value(),
    {
        proof {
            use_type_invariant(&proof);
            use_type_invariant(&self);
        }
        match self.contents {
            Contents::Shared(x) => x,
            Contents::Mutable(_) => unreached(),
        }
    }

    fn into_mut(self, proof: IsMutable<M>) -> (r: Mut)
        ensures
            r == self.mutable_value(),
    {
        proof {
            use_type_invariant(&proof);
            use_type_invariant(&self);
        }
        match self.contents {
            Contents::Shared(_) => unreached(),
            Contents::Mutable(x) => x,
        }
    }
}

impl<M: Mutability, Sh, Mut> GenFrom<M, Sh, Mut> for GenStruct<M, Sh, Mut> {
    fn from_shared(from: Sh, proof: IsShared<M>) -> (r: Self)
        ensures
            r.shared_value() == from,
    {
        proof {
            use_type_invariant(&proof);
        }
        GenStruct { contents: Contents::Shared(from), _mutability: PhantomData }
    }

    fn from_mut(from: Mut, proof: IsMutable<M>) -> (r: Self)
        ensures
            r.mutable_value() == from,
    {
        proof {
            use_type_invariant(&proof);
        }
        GenStruct { contents: Contents::Mutable(from), _mutability: PhantomData }
    }
}

/// A reference to a `GenStruct`, as returned by `GenStruct::as_ref`.
pub struct GenStructAsRef<T>(T);

impl<T> GenStructAsRef<T> {
    /// The wrapped reference.
    pub closed spec fn inner(self) -> T {
        self.0
    }
}

/// Borrows the shared form held in `contents`.
fn shared_of<Sh, Mut>(contents: &Contents<Sh, Mut>) -> (r: &Sh)
    requires
        contents is Shared,
    ensures
        *r == contents->Shared_0,
{
    match contents {
        Contents::Shared(x) => x,
        Contents::Mutable(_) => unreached(),
    }
}

/// Mutably borrows the shared form held in `contents`; the variant stays as it is.
fn shared_of_mut<Sh, Mut>(contents: &mut Contents<Sh, Mut>) -> (r: &mut Sh)
    requires
        *old(contents) is Shared,
    ensures
        *r == old(contents)->Shared_0,
        *final(contents) == Contents::<Sh, Mut>::Shared(*final(r)),
    no_unwind
{
    match contents {
        Contents::Shared(x) => x,
        Contents::Mutable(_) => unreached(),
    }
}

/// Borrows the mutable form held in `contents`.
fn mutable_of<Sh, Mut>(contents: &Contents<Sh, Mut>) -> (r: &Mut)
    requires
        contents is Mutable,
    ensures
        *r == contents->Mutable_0,
{
    match contents {
        Contents::Shared(_) => unreached(),
        Contents::Mutable(x) => x,
    }
}

/// Mutably borrows the mutable form held in `contents`; the variant stays as it is.
fn mutable_of_mut<Sh, Mut>(contents: &mut Contents<Sh, Mut>) -> (r: &mut Mut)
    requires
        *old(contents) is Mutable,
    ensures
        *r == old(contents)->Mutable_0,
        *final(contents) == Contents::<Sh, Mut>::Mutable(*final(r)),
    no_unwind
{
    match contents {
        Contents::Shared(_) => unreached(),
        Contents::Mutable(x) => x,
    }
}

impl<M: Mutability, Sh, Mut> GenStruct<M, Sh, Mut> {
    /// Borrows the value held, when `M` is `Shared`.
    fn shared_ref(gen_struct: &GenStruct<M, Sh, Mut>) -> (r: &Sh)
        requires
            !M::spec_is_mutable(),
        ensures
            *r == gen_struct.shared_value(),
    {
        proof {
            use_type_invariant(gen_struct);
        }
        shared_of(&gen_struct.contents)
    }

    /// Mutably borrows the value held, when `M` is `Shared`.
    fn shared_mut(gen_struct: &mut GenStruct<M, Sh, Mut>) -> (r: &mut Sh)
        requires
            !M::spec_is_mutable(),
        ensures
            *r == old(gen_struct).shared_value(),
            final(gen_struct).shared_value() == *final(r),
        no_unwind
    {
        proof {
            use_type_invariant(&*gen_struct);
        }
        shared_of_mut(&mut gen_struct.contents)
    }

    /// Borrows the value held, when `M` is `Mutable`.
    fn mutable_ref(gen_struct: &GenStruct<M, Sh, Mut>) -> (r: &Mut)
        requires
            M::spec_is_mutable(),
        ensures
            *r == gen_struct.mutable_value(),
    {
        proof {
            use_type_invariant(gen_struct);
        }
        mutable_of(&gen_struct.contents)
    }

    /// Mutably borrows the value held, when `M` is `Mutable`.
    fn mutable_mut(gen_struct: &mut GenStruct<M, Sh, Mut>) -> (r: &mut Mut)
        requires
            M::spec_is_mutable(),
        ensures
            *r == old(gen_struct).mutable_value(),
            final(gen_struct).mutable_value() == *final(r),
        no_unwind
    {
        proof {
            use_type_invariant(&*gen_struct);
        }
        mutable_of_mut(&mut gen_struct.contents)
    }
}

/// Converts a reference to a `GenStruct` into a reference, of the same outer mutability, to the
/// value it holds.
impl<'s, MOuter: Mutability, MInner: Mutability, Sh, Mut> GenInto<MInner> for GenStructAsRef<
    GenRef<'s, MOuter, GenStruct<MInner, Sh, Mut>>,
> {
    type Shared = GenRef<'s, MOuter, Sh>;

    type Mutable = GenRef<'s, MOuter, Mut>;

    fn into_shared(self, proof: IsShared<MInner>) -> (r: GenRef<'s, MOuter, Sh>)
        ensures
            r.value() == self.inner().value().shared_value(),
            MOuter::spec_is_mutable()
                ==> (*final(self.inner().mut_ref())).shared_value() == *final(r.mut_ref()),
    {
        proof {
            use_type_invariant(&proof);
        }
        let on_shared = |g: &'s GenStruct<MInner, Sh, Mut>| -> (r: &'s Sh)
            requires
                !MInner::spec_is_mutable(),
            ensures
                *r == g.shared_value(),
        {
            GenStruct::shared_ref(g)
        };
        let on_mut = |g: &'s mut GenStruct<MInner, Sh, Mut>| -> (r: &'s mut Sh)
            requires
                !MInner::spec_is_mutable(),
            ensures
                *r == old(g).shared_value(),
                final(g).shared_value() == *final(r),
        {
            GenStruct::shared_mut(g)
        };
        GenRef::map(self.0, on_shared, on_mut)
    }

    fn into_mut(self, proof: IsMutable<MInner>) -> (r: GenRef<'s, MOuter, Mut>)
        ensures
            r.value() == self.inner().value().mutable_value(),
            MOuter::spec_is_mutable()
                ==> (*final(self.inner().mut_ref())).mutable_value() == *final(r.mut_ref()),
    {
        proof {
            use_type_invariant(&proof);
        }
        let on_shared = |g: &'s GenStruct<MInner, Sh, Mut>| -> (r: &'s Mut)
            requires
                MInner::spec_is_mutable(),
            ensures
                *r == g.mutable_value(),
        {
            GenStruct::mutable_ref(g)
        };
        let on_mut = |g: &'s mut GenStruct<MInner, Sh, Mut>| -> (r: &'s mut Mut)
            requires
                MInner::spec_is_mutable(),
            ensures
                *r == old(g).mutable_value(),
                final(g).mutable_value() == *final(r),
        {
            GenStruct::mutable_mut(g)
        };
        GenRef::map(self.0, on_shared, on_mut)
    }
}

} // verus!
