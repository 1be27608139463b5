use vstd::prelude::*;

use core::marker::PhantomData;

use vstd::std_specs::cmp::{PartialEqSpec, PartialEqSpecImpl, PartialOrdSpec, PartialOrdSpecImpl};

use crate::mutability::{IsMutable, IsShared, Mutability, Mutable, Shared};

verus! {

/// The native reference held by a `GenRef`.
enum RefKind<'s, T> {
    Exclusive(&'s mut T),
    Shared(&'s T),
}

/// Reborrows the native reference held in `kind` for a shorter lifetime.
fn reborrow_kind<'a, 's, T>(kind: &'a mut RefKind<'s, T>) -> (r: RefKind<'a, T>)
    ensures
        r is Exclusive <==> *old(kind) is Exclusive,
        *final(kind) is Exclusive <==> *old(kind) is Exclusive,
        match *old(kind) {
            RefKind::Exclusive(x) => {
                &&& *r->Exclusive_0 == *x
                &&& *(final(kind)->Exclusive_0) == *final(r->Exclusive_0)
                &&& *final(final(kind)->Exclusive_0) == *final(x)
            },
            RefKind::Shared(x) => {
                &&& *r->Shared_0 == *x
                &&& *final(kind) == *old(kind)
            },
        },
    no_unwind
{
    match kind {
        RefKind::Exclusive(x) => RefKind::Exclusive(&mut **x),
        RefKind::Shared(x) => RefKind::Shared(&**x),
    }
}

/// A reference whose mutability is the type parameter `M`: a `&'s T` when `M` is `Shared`,
/// a `&'s mut T` when `M` is `Mutable`.
///
/// Its contracts are stated over `value()`, the value it refers to, and, when `M` is
/// `Mutable`, over `mut_ref()`, the exclusive reference it stands for: what the borrowed place
/// holds once the `GenRef` and everything derived from it are gone is `*final(g.mut_ref())`.
///
/// A `GenRef<'_, Mutable, T>` cannot be cloned, so two of them never refer to the same place
/// at once; a `GenRef<'_, Shared, T>` can.
pub struct GenRef<'s, M: Mutability, T> {
    kind: RefKind<'s, T>,
    _mutability: PhantomData<M>,
}

impl<'s, M: Mutability, T> GenRef<'s, M, T> {
    #[verifier::type_invariant]
    spec fn kind_matches_marker(self) -> bool {
        self.kind is Exclusive <==> M::spec_is_mutable()
    }

    /// The referenced value.
    pub open spec fn value(self) -> T {
        if M::spec_is_mutable() {
            *self.mut_ref()
        } else {
            *self.shared_ref()
        }
    }

    /// The exclusive reference this `GenRef` stands for, when `M` is `Mutable`.
    pub closed spec fn mut_ref(self) -> &'s mut T {
        match self.kind {
            RefKind::Exclusive(r) => r,
            RefKind::Shared(_) => arbitrary(),
        }
    }

    /// The shared reference this `GenRef` stands for, when `M` is `Shared`.
    pub closed spec fn shared_ref(self) -> &'s T {
        match self.kind {
            RefKind::Exclusive(_) => arbitrary(),
            RefKind::Shared(r) => r,
        }
    }

    /// Runs `f_mut` on the `&mut T` when `M` is `Mutable`, or `f_shared` on the `&T` when `M` is
    /// `Shared`, handing it `moved` as well, and returns what it returns.
    pub fn dispatch<X, U>(
        genref: Self,
        moved: X,
        f_mut: impl FnOnce(&'s mut T, X) -> U,
        f_shared: impl FnOnce(&'s T, X) -> U,
    ) -> (r: U)
        requires
            M::spec_is_mutable() ==> forall|a: &'s mut T|
                *a == genref.value() && *final(a) == *final(genref.mut_ref()) ==> #[trigger] f_mut.requires((a, moved)),
            !M::spec_is_mutable() ==> f_shared.requires((genref.shared_ref(), moved)),
        ensures
            M::spec_is_mutable() ==> exists|a: &'s mut T|
                *a == genref.value() && *final(a) == *final(genref.mut_ref()) && #[trigger] f_mut.ensures((a, moved), r),
            !M::spec_is_mutable() ==> f_shared.ensures((genref.shared_ref(), moved), r),
    {
        proof {
            use_type_invariant(&genref);
        }
        match genref.kind {
            RefKind::Exclusive(r) => f_mut(r, moved),
            RefKind::Shared(r) => f_shared(r, moved),
        }
    }

    /// Maps this `GenRef` to one of a derived place (a field, an element), with `f_mut` when
    /// `M` is `Mutable` and `f_shared` when `M` is `Shared`.
    pub fn map<U>(
        genref: Self,
        f_shared: impl FnOnce(&'s T) -> &'s U,
        f_mut: impl FnOnce(&'s mut T) -> &'s mut U,
    ) -> (out: GenRef<'s, M, U>)
        requires
            M::spec_is_mutable() ==> forall|a: &'s mut T|
                *a == genref.value() && *final(a) == *final(genref.mut_ref()) ==> #[trigger] f_mut.requires((a,)),
            !M::spec_is_mutable() ==> f_shared.requires((genref.shared_ref(),)),
        ensures
            M::spec_is_mutable() ==> exists|a: &'s mut T, b: &'s mut U|
                {
                    &&& *a == genref.value()
                    &&& *final(a) == *final(genref.mut_ref())
                    &&& #[trigger] f_mut.ensures((a,), b)
                    &&& out.value() == *b
                    &&& *final(out.mut_ref()) == *final(b)
                },
            !M::spec_is_mutable() ==> f_shared.ensures((genref.shared_ref(),), out.shared_ref()),
    {
        proof {
            use_type_invariant(&genref);
        }
        match genref.kind {
            RefKind::Exclusive(r) => GenRef { kind: RefKind::Exclusive(f_mut(r)), _mutability: PhantomData },
            RefKind::Shared(r) => GenRef { kind: RefKind::Shared(f_shared(r)), _mutability: PhantomData },
        }
    }

    /// Follows `Deref` (or `DerefMut` when `M` is `Mutable`) of the referenced value.
    pub fn map_deref(genref: Self) -> (out: GenRef<'s, M, T::Target>) where
        T: core::ops::Deref + core::ops::DerefMut,
        T::Target: Sized,
        requires
            M::spec_is_mutable() ==> forall|a: &'s mut T|
                *a == genref.value() && *final(a) == *final(genref.mut_ref()) ==> #[trigger] call_requires(T::deref_mut, (a,)),
            !M::spec_is_mutable() ==> call_requires(T::deref, (genref.shared_ref(),)),
        ensures
            M::spec_is_mutable() ==> exists|a: &'s mut T, b: &'s mut T::Target|
                {
                    &&& *a == genref.value()
                    &&& *final(a) == *final(genref.mut_ref())
                    &&& #[trigger] call_ensures(T::deref_mut, (a,), b)
                    &&& out.value() == *b
                    &&& *final(out.mut_ref()) == *final(b)
                },
            !M::spec_is_mutable() ==> call_ensures(T::deref, (genref.shared_ref(),), out.shared_ref()),
    {
        GenRef::map(genref, T::deref, T::deref_mut)
    }

    /// Splits this `GenRef` into two of disjoint derived places (two fields), with `f_mut`
    /// when `M` is `Mutable` and `f_shared` when `M` is `Shared`, handing it `moved` as well.
    pub fn split<X, U, V>(
        genref: Self,
        moved: X,
        f_mut: impl FnOnce(&'s mut T, X) -> (&'s mut U, &'s mut V),
        f_shared: impl FnOnce(&'s T, X) -> (&'s U, &'s V),
    ) -> (out: (GenRef<'s, M, U>, GenRef<'s, M, V>))
        requires
            M::spec_is_mutable() ==> forall|a: &'s mut T|
                *a == genref.value() && *final(a) == *final(genref.mut_ref()) ==> #[trigger] f_mut.requires((a, moved)),
            !M::spec_is_mutable() ==> f_shared.requires((genref.shared_ref(), moved)),
        ensures
            M::spec_is_mutable() ==> exists|a: &'s mut T, b: (&'s mut U, &'s mut V)|
                {
                    &&& *a == genref.value()
                    &&& *final(a) == *final(genref.mut_ref())
                    &&& #[trigger] f_mut.ensures((a, moved), b)
                    &&& out.0.value() == *b.0
                    &&& *final(out.0.mut_ref()) == *final(b.0)
                    &&& out.1.value() == *b.1
                    &&& *final(out.1.mut_ref()) == *final(b.1)
                },
            !M::spec_is_mutable() ==> f_shared.ensures(
                (genref.shared_ref(), moved),
                (out.0.shared_ref(), out.1.shared_ref()),
            ),
    {
        proof {
            use_type_invariant(&genref);
        }
        match genref.kind {
            RefKind::Exclusive(r) => {
                let (u, v) = f_mut(r, moved);
                (
                    GenRef { kind: RefKind::Exclusive(u), _mutability: PhantomData },
                    GenRef { kind: RefKind::Exclusive(v), _mutability: PhantomData },
                )
            },
            RefKind::Shared(r) => {
                let (u, v) = f_shared(r, moved);
                (
                    GenRef { kind: RefKind::Shared(u), _mutability: PhantomData },
                    GenRef { kind: RefKind::Shared(v), _mutability: PhantomData },
                )
            },
        }
    }

    /// Converts a `&mut T` into a `GenRef<'_, M, T>`, downgrading it when `M` is `Shared`.
    pub fn gen_from_mut_downgrading(reference: &'s mut T) -> (g: Self)
        ensures
            g.value() == *old(reference),
            M::spec_is_mutable() ==> *final(g.mut_ref()) == *final(reference),
            !M::spec_is_mutable() ==> *final(reference) == *old(reference),
    {
        if M::is_mutable() {
            GenRef { kind: RefKind::Exclusive(reference), _mutability: PhantomData }
        } else {
            GenRef { kind: RefKind::Shared(reference), _mutability: PhantomData }
        }
    }

    /// Converts a `GenRef<'_, M, T>` into `&T`, giving up write access when `M` is `Mutable`.
    pub fn gen_into_shared_downgrading(genref: Self) -> (r: &'s T)
        ensures
            *r == genref.value(),
            M::spec_is_mutable() ==> *final(genref.mut_ref()) == genref.value(),
    {
        proof {
            use_type_invariant(&genref);
        }
        match genref.kind {
            RefKind::Exclusive(r) => r,
            RefKind::Shared(r) => r,
        }
    }

    /// Converts a `GenRef<'_, M, T>` into `&mut T`, given a proof that `M` is `Mutable`.
    pub fn gen_into_mut(genref: Self, proof: IsMutable<M>) -> (r: &'s mut T)
        ensures
            *r == genref.value(),
            *final(r) == *final(genref.mut_ref()),
    {
        proof {
            use_type_invariant(&proof);
            use_type_invariant(&genref);
        }
        match genref.kind {
            RefKind::Exclusive(r) => r,
            RefKind::Shared(_) => unreached(),
        }
    }

    /// Converts a `&mut T` into a `GenRef<'_, M, T>`, given a proof that `M` is `Mutable`.
    pub fn gen_from_mut(reference: &'s mut T, proof: IsMutable<M>) -> (g: Self)
        ensures
            g.value() == *old(reference),
            *final(g.mut_ref()) == *final(reference),
    {
        proof {
            use_type_invariant(&proof);
        }
        GenRef { kind: RefKind::Exclusive(reference), _mutability: PhantomData }
    }

    /// Converts a `GenRef<'_, M, T>` into `&T`, given a proof that `M` is `Shared`.
    pub fn gen_into_shared(genref: Self, proof: IsShared<M>) -> (r: &'s T)
        ensures
            r == genref.shared_ref(),
            *r == genref.value(),
    {
        proof {
            use_type_invariant(&proof);
            use_type_invariant(&genref);
        }
        Self::gen_into_shared_downgrading(genref)
    }

    /// Converts a `&T` into a `GenRef<'_, M, T>`, given a proof that `M` is `Shared`.
    pub fn gen_from_shared(reference: &'s T, proof: IsShared<M>) -> (g: Self)
        ensures
            g.shared_ref() == reference,
            g.value() == *reference,
    {
        proof {
            use_type_invariant(&proof);
        }
        GenRef { kind: RefKind::Shared(reference), _mutability: PhantomData }
    }

    /// Creates a shorter-lived `GenRef` from a borrow of this one.
    ///
    /// While the new `GenRef` lives, this one cannot be used; afterwards it refers to what
    /// was written through the new one.
    pub fn reborrow<'a>(genref: &'a mut Self) -> (r: GenRef<'a, M, T>)
        ensures
            r.value() == old(genref).value(),
            final(genref).value() == if M::spec_is_mutable() {
                *final(r.mut_ref())
            } else {
                old(genref).value()
            },
            M::spec_is_mutable() ==> *final(final(genref).mut_ref()) == *final(old(genref).mut_ref()),
        no_unwind
    {
        proof {
            use_type_invariant(&*genref);
        }
        GenRef { kind: reborrow_kind(&mut genref.kind), _mutability: PhantomData }
    }
}

impl<'s, M: Mutability, A, B> GenRef<'s, M, (A, B)> {
    /// Splits a reference to a pair into references to its two fields.
    ///
    /// The halves are disjoint: once they are released, the pair holds exactly what each
    /// half last held, in its own field.
    pub fn split_pair(genref: Self) -> (halves: (GenRef<'s, M, A>, GenRef<'s, M, B>))
        ensures
            halves.0.value() == genref.value().0,
            halves.1.value() == genref.value().1,
            M::spec_is_mutable() ==> *final(genref.mut_ref()) == (
                *final(halves.0.mut_ref()),
                *final(halves.1.mut_ref()),
            ),
    {
        let on_mut = |p: &'s mut (A, B), u: ()| -> (r: (&'s mut A, &'s mut B))
            ensures
                *r.0 == old(p).0,
                *r.1 == old(p).1,
                *final(p) == (*final(r.0), *final(r.1)),
        {
            (&mut p.0, &mut p.1)
        };
        let on_shared = |p: &'s (A, B), u: ()| -> (r: (&'s A, &'s B))
            ensures
                *r.0 == p.0,
                *r.1 == p.1,
        {
            (&p.0, &p.1)
        };
        GenRef::split(genref, (), on_mut, on_shared)
    }
}

impl<'s, M: Mutability, E> GenRef<'s, M, Vec<E>> {
    /// Maps a reference to a vector to a reference to its element at `idx`.
    ///
    /// Once released, the vector holds what the element reference last held at `idx`, and
    /// is unchanged elsewhere.
    pub fn index(genref: Self, idx: usize) -> (elem: GenRef<'s, M, E>)
        requires
            idx < genref.value().len(),
        ensures
            elem.value() == genref.value()[idx as int],
            M::spec_is_mutable() ==> (*final(genref.mut_ref()))@ == genref.value()@.update(
                idx as int,
                *final(elem.mut_ref()),
            ),
    {
        let on_shared = |v: &'s Vec<E>| -> (r: &'s E)
            requires
                idx < v.len(),
            ensures
                *r == v[idx as int],
        {
            &v[idx]
        };
        let on_mut = |v: &'s mut Vec<E>| -> (r: &'s mut E)
            requires
                idx < old(v).len(),
            ensures
                *r == old(v)[idx as int],
                final(v)@ == old(v)@.update(idx as int, *final(r)),
        {
            &mut v[idx]
        };
        GenRef::map(genref, on_shared, on_mut)
    }
}

/// Builds a `GenRef<'_, Shared, T>` from a `&T`.
impl<'s, T> From<&'s T> for GenRef<'s, Shared, T> {
    fn from(reference: &'s T) -> (g: Self)
        ensures
            g.shared_ref() == reference,
    {
        GenRef::gen_from_shared(reference, Shared::mutability())
    }
}

impl<'s, T> vstd::std_specs::convert::FromSpecImpl<&'s T> for GenRef<'s, Shared, T> {
    open spec fn obeys_from_spec() -> bool {
        false
    }

    open spec fn from_spec(v: &'s T) -> Self {
        arbitrary()
    }
}

/// Builds a `GenRef<'_, Mutable, T>` from a `&mut T`.
impl<'s, T> From<&'s mut T> for GenRef<'s, Mutable, T> {
    fn from(reference: &'s mut T) -> (g: Self)
        ensures
            g.value() == *old(reference),
            *final(g.mut_ref()) == *final(reference),
    {
        GenRef::gen_from_mut(reference, Mutable::mutability())
    }
}

impl<'s, T> vstd::std_specs::convert::FromSpecImpl<&'s mut T> for GenRef<'s, Mutable, T> {
    open spec fn obeys_from_spec() -> bool {
        false
    }

    open spec fn from_spec(v: &'s mut T) -> Self {
        arbitrary()
    }
}

/// Reads the referenced value, whatever the mutability.
impl<'s, M: Mutability, T> core::ops::Deref for GenRef<'s, M, T> {
    type Target = T;

    fn deref(&self) -> (r: &T)
        ensures
            *r == self.value(),
    {
        proof {
            use_type_invariant(self);
        }
        match &self.kind {
            RefKind::Exclusive(r) => &**r,
            RefKind::Shared(r) => *r,
        }
    }
}

/// Writes through a `GenRef<'_, Mutable, T>`.
impl<'s, T> core::ops::DerefMut for GenRef<'s, Mutable, T> {
    fn deref_mut(&mut self) -> (r: &mut T)
        ensures
            *r == old(self).value(),
            final(self).value() == *final(r),
            *final(final(self).mut_ref()) == *final(old(self).mut_ref()),
    {
        GenRef::into_mut(GenRef::reborrow(self))
    }
}

/// Compares the referenced values.
impl<'a, 'b, MT: Mutability, MU: Mutability, T, U> PartialEq<GenRef<'b, MU, U>> for GenRef<'a, MT, T> where
    T: PartialEq<U> + PartialEqSpec<U>,
 {
    fn eq(&self, other: &GenRef<'b, MU, U>) -> (r: bool) {
        let a: &T = self;
        let b: &U = other;
        a.eq(b)
    }
}

impl<'a, 'b, MT: Mutability, MU: Mutability, T, U> PartialEqSpecImpl<GenRef<'b, MU, U>> for GenRef<'a, MT, T> where
    T: PartialEq<U> + PartialEqSpec<U>,
 {
    open spec fn obeys_eq_spec() -> bool {
        T::obeys_eq_spec()
    }

    open spec fn eq_spec(&self, other: &GenRef<'b, MU, U>) -> bool {
        self.value().eq_spec(&other.value())
    }
}

/// Orders by the referenced values.
impl<'a, 'b, MT: Mutability, MU: Mutability, T, U> PartialOrd<GenRef<'b, MU, U>> for GenRef<'a, MT, T> where
    T: PartialOrd<U> + PartialEqSpec<U> + PartialOrdSpec<U>,
 {
    fn partial_cmp(&self, other: &GenRef<'b, MU, U>) -> (r: Option<core::cmp::Ordering>) {
        let a: &T = self;
        let b: &U = other;
        a.partial_cmp(b)
    }
}

impl<'a, 'b, MT: Mutability, MU: Mutability, T, U> PartialOrdSpecImpl<GenRef<'b, MU, U>> for GenRef<'a, MT, T> where
    T: PartialOrd<U> + PartialEqSpec<U> + PartialOrdSpec<U>,
 {
    open spec fn obeys_partial_cmp_spec() -> bool {
        T::obeys_partial_cmp_spec()
    }

    open spec fn partial_cmp_spec(&self, other: &GenRef<'b, MU, U>) -> Option<core::cmp::Ordering> {
        self.value().partial_cmp_spec(&other.value())
    }
}

/// Compares the referenced value with the one behind a native reference.
impl<'a, 'b, M: Mutability, T, U> PartialEq<&'b U> for GenRef<'a, M, T> where
    T: PartialEq<U> + PartialEqSpec<U>,
 {
    fn eq(&self, other: &&'b U) -> (r: bool) {
        let a: &T = self;
        a.eq(*other)
    }
}

impl<'a, 'b, M: Mutability, T, U> PartialEqSpecImpl<&'b U> for GenRef<'a, M, T> where
    T: PartialEq<U> + PartialEqSpec<U>,
 {
    open spec fn obeys_eq_spec() -> bool {
        T::obeys_eq_spec()
    }

    open spec fn eq_spec(&self, other: &&'b U) -> bool {
        self.value().eq_spec(*other)
    }
}

/// Copies the reference, not the referenced value.
impl<'s, T> Clone for GenRef<'s, Shared, T> {
    fn clone(&self) -> (r: Self)
        ensures
            r.shared_ref() == self.shared_ref(),
    {
        proof {
            use_type_invariant(self);
        }
        match &self.kind {
            RefKind::Exclusive(_) => unreached(),
            RefKind::Shared(r) => GenRef { kind: RefKind::Shared(*r), _mutability: PhantomData },
        }
    }
}

impl<'s, T> GenRef<'s, Shared, T> {
    /// Converts a `GenRef<'_, Shared, T>` into `&T`.
    pub fn into_shared(genref: Self) -> (r: &'s T)
        ensures
            *r == genref.value(),
    {
        Self::gen_into_shared(genref, Shared::mutability())
    }
}

impl<'s, T> GenRef<'s, Mutable, T> {
    /// Converts a `GenRef<'_, Mutable, T>` into `&mut T`.
    pub fn into_mut(genref: Self) -> (r: &'s mut T)
        ensures
            *r == genref.value(),
            *final(r) == *final(genref.mut_ref()),
    {
        Self::gen_into_mut(genref, Mutable::mutability())
    }
}

} // verus!
