use vstd::prelude::*;

use crate::genref::GenRef;
use crate::mutability::{IsMutable, IsShared, Mutability};

verus! {

/// Private supertrait of `GenRefMethods`: only `GenRef` implements it.
pub trait Sealed {

}

impl<'s, M: Mutability, T> Sealed for GenRef<'s, M, T> {

}

/// Method-call forms of the associated functions of `GenRef`.
///
/// Those are not methods of `GenRef` itself, so that they are not confused with the methods of
/// the referenced value; this trait is for the places where that confusion cannot arise.
/// Only `GenRef` implements it.
pub trait GenRefMethods<'s, M: Mutability, T: 's>: Sized + Sealed {
    /// The referenced value (`GenRef::value`).
    spec fn referenced(self) -> T;

    /// The exclusive reference stood for, when `M` is `Mutable` (`GenRef::mut_ref`).
    spec fn exclusive(self) -> &'s mut T;

    /// The shared reference stood for, when `M` is `Shared` (`GenRef::shared_ref`).
    spec fn shared(self) -> &'s T;

    /// Same as `GenRef::gen_into_shared_downgrading`.
    fn gen_into_shared_downgrading(self) -> (r: &'s T)
        ensures
            *r == self.referenced(),
            M::spec_is_mutable() ==> *final(self.exclusive()) == self.referenced(),
    ;

    /// Same as `GenRef::gen_into_mut`.
    fn gen_into_mut(self, proof: IsMutable<M>) -> (r: &'s mut T)
        ensures
            *r == self.referenced(),
            *final(r) == *final(self.exclusive()),
    ;

    /// Same as `GenRef::gen_into_shared`.
    fn gen_into_shared(self, proof: IsShared<M>) -> (r: &'s T)
        ensures
            r == self.shared(),
            *r == self.referenced(),
    ;

    /// Same as `GenRef::reborrow`.
    fn reborrow<'a>(&'a mut self) -> (r: GenRef<'a, M, T>)
        ensures
            r.value() == old(self).referenced(),
            final(self).referenced() == if M::spec_is_mutable() {
                *final(r.mut_ref())
            } else {
                old(self).referenced()
            },
            M::spec_is_mutable() ==> *final(final(self).exclusive()) == *final(old(self).exclusive()),
    ;

    /// Same as `GenRef::map`, with the two functions in the other order.
    fn map<U: 's, FM: FnOnce(&'s mut T) -> &'s mut U, FS: FnOnce(&'s T) -> &'s U>(
        self,
        f_mut: FM,
        f_shared: FS,
    ) -> (out: GenRef<'s, M, U>)
        requires
            M::spec_is_mutable() ==> forall|a: &'s mut T|
                *a == self.referenced() && *final(a) == *final(self.exclusive()) ==> #[trigger] f_mut.requires((a,)),
            !M::spec_is_mutable() ==> f_shared.requires((self.shared(),)),
        ensures
            M::spec_is_mutable() ==> exists|a: &'s mut T, b: &'s mut U|
                {
                    &&& *a == self.referenced()
                    &&& *final(a) == *final(self.exclusive())
                    &&& #[trigger] f_mut.ensures((a,), b)
                    &&& out.value() == *b
                    &&& *final(out.mut_ref()) == *final(b)
                },
            !M::spec_is_mutable() ==> f_shared.ensures((self.shared(),), out.shared_ref()),
    ;

    /// Same as `GenRef::map_deref`.
    fn map_deref(self) -> (out: GenRef<'s, M, T::Target>) where
        T: core::ops::Deref + core::ops::DerefMut,
        T::Target: Sized + 's,
        requires
            M::spec_is_mutable() ==> forall|a: &'s mut T|
                *a == self.referenced() && *final(a) == *final(self.exclusive()) ==> #[trigger] call_requires(T::deref_mut, (a,)),
            !M::spec_is_mutable() ==> call_requires(T::deref, (self.shared(),)),
        ensures
            M::spec_is_mutable() ==> exists|a: &'s mut T, b: &'s mut T::Target|
                {
                    &&& *a == self.referenced()
                    &&& *final(a) == *final(self.exclusive())
                    &&& #[trigger] call_ensures(T::deref_mut, (a,), b)
                    &&& out.value() == *b
                    &&& *final(out.mut_ref()) == *final(b)
                },
            !M::spec_is_mutable() ==> call_ensures(T::deref, (self.shared(),), out.shared_ref()),
    ;

    /// Reads the referenced value, as `Deref::deref` does.
    fn deref(&self) -> (r: &T)
        ensures
            *r == self.referenced(),
    ;
}

impl<'s, M: Mutability, T> GenRefMethods<'s, M, T> for GenRef<'s, M, T> {
    open spec fn referenced(self) -> T {
        self.value()
    }

    open spec fn exclusive(self) -> &'s mut T {
        self.mut_ref()
    }

    open spec fn shared(self) -> &'s T {
        self.shared_ref()
    }

    fn gen_into_shared_downgrading(self) -> (r: &'s T) {
        GenRef::gen_into_shared_downgrading(self)
    }

    fn gen_into_mut(self, proof: IsMutable<M>) -> (r: &'s mut T) {
        GenRef::gen_into_mut(self, proof)
    }

    fn gen_into_shared(self, proof: IsShared<M>) -> (r: &'s T) {
        GenRef::gen_into_shared(self, proof)
    }

    fn reborrow<'a>(&'a mut self) -> (r: GenRef<'a, M, T>) {
        GenRef::reborrow(self)
    }

    fn map<U: 's, FM: FnOnce(&'s mut T) -> &'s mut U, FS: FnOnce(&'s T) -> &'s U>(
        self,
        f_mut: FM,
        f_shared: FS,
    ) -> (out: GenRef<'s, M, U>) {
        GenRef::map(self, f_shared, f_mut)
    }

    fn map_deref(self) -> (out: GenRef<'s, M, T::Target>) where
        T: core::ops::Deref + core::ops::DerefMut,
        T::Target: Sized + 's,
     {
        GenRef::map_deref(self)
    }

    fn deref(&self) -> (r: &T) {
        self
    }
}

} // verus!
