//! Laws that relate several operations of the crate.
//!
//! Each lemma takes the values involved and, as `requires`, what the operations' own contracts
//! guarantee about them; its `ensures` is the law.
use vstd::prelude::*;

use crate::genref::GenRef;
use crate::genref_enum::{GenRefEnum, IncorrectMutability};
use crate::mutability::{Mutability, Mutable};

verus! {

/// Round trip: a `&mut T` made into a `GenRef<'_, Mutable, T>` (`From`) and turned back into a
/// `&mut T` (`into_mut`) is a reference to the same place. Of the converted reference, `start`
/// is the value it read and `end` the value its place holds once released; of the returned
/// one, `back_start` is the value it reads and `back_end` the last value it holds. The
/// returned reference reads what the converted one read, and its last value is what the
/// borrowed place ends with.
pub proof fn lemma_round_trip<'s, T>(
    start: T,
    end: T,
    genref: GenRef<'s, Mutable, T>,
    back_start: T,
    back_end: T,
)
    requires
        genref.value() == start,
        *final(genref.mut_ref()) == end,
        back_start == genref.value(),
        back_end == *final(genref.mut_ref()),
    ensures
        back_start == start,
        back_end == end,
{
}

/// Read transparency: whatever the mutability, reading through a `GenRef` (`Deref`) gives the
/// value `referenced` of the native reference it was built from.
pub proof fn lemma_read_transparency<'s, M: Mutability, T>(
    referenced: T,
    genref: GenRef<'s, M, T>,
    read: T,
)
    requires
        genref.value() == referenced,
        read == genref.value(),
    ensures
        read == referenced,
{
}

/// Downgrade monotonicity: downgrading a `GenRef<'_, Mutable, T>` to a `&T`
/// (`gen_into_shared_downgrading`) reads the last value written before the downgrade, and the
/// place keeps that value, since no write can follow.
pub proof fn lemma_downgrade_keeps_last_write<'s, T>(
    last_written: T,
    genref: GenRef<'s, Mutable, T>,
    shared: &'s T,
)
    requires
        genref.value() == last_written,
        *shared == genref.value(),
        *final(genref.mut_ref()) == genref.value(),
    ensures
        *shared == last_written,
        *final(genref.mut_ref()) == last_written,
{
}

/// Downcast: erasing the mutability of a `GenRef<'_, M, T>` (`GenRefEnum::from`) and asking
/// for a `GenRef<'_, N, T>` back (`TryFrom`) succeeds exactly when `N` is `M`, with the same
/// value; otherwise it fails with an error naming `N` as the requested mutability.
pub proof fn lemma_downcast<'s, M: Mutability, N: Mutability, T>(
    genref: GenRef<'s, M, T>,
    erased: GenRefEnum<'s, T>,
    back: Result<GenRef<'s, N, T>, IncorrectMutability>,
)
    requires
        erased is Mutable <==> M::spec_is_mutable(),
        erased.value() == genref.value(),
        back is Ok <==> (erased is Mutable <==> N::spec_is_mutable()),
        back is Ok ==> back->Ok_0.value() == erased.value(),
        back is Err ==> back->Err_0.spec_target_mutable() == N::spec_is_mutable(),
    ensures
        back is Ok <==> (M::spec_is_mutable() == N::spec_is_mutable()),
        back is Ok ==> back->Ok_0.value() == genref.value(),
        back is Err ==> back->Err_0.spec_target_mutable() == !M::spec_is_mutable(),
{
}

} // verus!
