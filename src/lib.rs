//! References that are generic over mutability.
//!
//! `GenRef<'s, M, T>` stands for either a `&'s T` (when `M` is `Shared`) or a `&'s mut T`
//! (when `M` is `Mutable`), so that a single function body can serve both kinds of callers.
//! The mutability parameter `M` is bounded by the sealed `Mutability` trait, which only
//! `Shared` and `Mutable` implement. Proof tokens (`IsMutable<M>`, `IsShared<M>`) certify the
//! value of `M` and unlock the narrowing conversions back to native references.
//! `GenRefEnum` is the run-time tagged counterpart of `GenRef`.
mod conv_traits;
mod gen_struct;
mod genref;
mod genref_enum;
mod genref_methods;
mod laws;
mod mutability;
mod seal;

pub use conv_traits::{GenFrom, GenInto};
pub use gen_struct::{GenStruct, GenStructAsRef};
pub use genref::GenRef;
pub use genref_enum::{GenRefEnum, IncorrectMutability};
pub use genref_methods::GenRefMethods;
pub use laws::{lemma_downcast, lemma_downgrade_keeps_last_write, lemma_read_transparency, lemma_round_trip};
pub use mutability::{IsMutable, IsShared, Mutability, MutabilityEnum, Mutable, Shared};
