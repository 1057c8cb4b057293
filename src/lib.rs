//! A fixed-size associative array keyed by primitive enums.
//!
//! Keys are enums whose values carry a primitive discriminant. Each key maps
//! to the slot whose index is its discriminant, so a map over a key type
//! whose greatest discriminant is `N - 1` is an array of `N` values.
mod assoc;
mod construct;
mod laws;
mod utils;

pub use crate::assoc::Assoc;
pub use crate::laws::{
    lemma_from_values_round_trip, lemma_index_injective, lemma_max_variants_is_greatest_plus_one,
    lemma_single_slot_update,
};
pub use crate::construct::{assoc, has_duplicate_indices, has_duplicate_keys, PhantomArray};

pub use crate::utils::{
    into_usize, transmute_copy_safe, transmute_safe, ConstIntoUSize, ConstUSize, Is, IsConstUSize, TransmuteSafe,
};

use vstd::prelude::*;

verus! {

/// Describes the layout of an enum with a primitive representation.
pub trait PrimitiveEnumLayoutTrait {
    /// The integer type that holds the discriminant.
    type Discriminant: ConstIntoUSize;

    /// One more than the greatest discriminant.
    type MaxVariants: IsConstUSize;
}

/// The layout of an enum whose discriminants are values of `Discriminant`,
/// all below `MAX_VARIANTS`.
pub struct PrimitiveEnumLayout<Discriminant, const MAX_VARIANTS: usize> {
    marker: core::marker::PhantomData<Discriminant>,
}

impl<Discriminant: ConstIntoUSize, const MAX_VARIANTS: usize> PrimitiveEnumLayoutTrait for PrimitiveEnumLayout<
    Discriminant,
    MAX_VARIANTS,
> {
    type Discriminant = Discriminant;

    type MaxVariants = ConstUSize<MAX_VARIANTS>;
}

/// The discriminant type of the key type `K`.
pub type DiscriminantOf<K> = <<K as PrimitiveEnum>::Layout as PrimitiveEnumLayoutTrait>::Discriminant;

/// One more than the greatest discriminant of the key type `K`.
pub open spec fn max_variants<K: PrimitiveEnum>() -> nat {
    <<K::Layout as PrimitiveEnumLayoutTrait>::MaxVariants as IsConstUSize>::n_spec() as nat
}

/// An enum with a primitive representation, usable as a key.
///
/// An implementation states the layout of the enum and gives each value's
/// discriminant twice: `discriminant_value_of` names it for contracts and
/// `discriminant` reads it, with the same body. The proof functions state
/// what the layout promises of the enum: every discriminant lies in
/// `[0, MaxVariants)`, distinct values have distinct discriminants, and some
/// value has the discriminant `MaxVariants - 1`. The map's storage is sized
/// and addressed by these facts.
pub trait PrimitiveEnum: Copy {
    /// The layout of `Self`.
    type Layout: PrimitiveEnumLayoutTrait;

    /// The discriminant of `self`.
    spec fn discriminant_value_of(self) -> <Self::Layout as PrimitiveEnumLayoutTrait>::Discriminant;

    /// Reads the discriminant of `self`.
    fn discriminant(self) -> (d: <Self::Layout as PrimitiveEnumLayoutTrait>::Discriminant)
        ensures
            d == self.discriminant_value_of(),
    ;

    /// Every discriminant lies in `[0, MaxVariants)`.
    proof fn lemma_discriminant_in_range(self)
        ensures
            0 <= self.discriminant_value_of().as_int() < <<Self::Layout as PrimitiveEnumLayoutTrait>::MaxVariants as IsConstUSize>::n_spec(),
    ;

    /// Distinct values have distinct discriminants.
    proof fn lemma_discriminant_injective(self, other: Self)
        ensures
            self.discriminant_value_of().as_int() == other.discriminant_value_of().as_int()
                ==> self == other,
    ;

    /// The greatest discriminant is `MaxVariants - 1`.
    proof fn lemma_greatest_discriminant()
        ensures
            exists|k: Self| #[trigger] k.discriminant_value_of().as_int() + 1 == <<Self::Layout as PrimitiveEnumLayoutTrait>::MaxVariants as IsConstUSize>::n_spec(),
    ;
}

/// The storage index of `key`: its discriminant.
pub open spec fn index_of<K: PrimitiveEnum>(key: K) -> nat {
    key.discriminant_value_of().as_int() as nat
}

/// Reads `max_variants::<K>()` at run time.
pub(crate) fn max_variants_exec<K: PrimitiveEnum>() -> (r: usize)
    ensures
        r as nat == max_variants::<K>(),
{
    <<K::Layout as PrimitiveEnumLayoutTrait>::MaxVariants as IsConstUSize>::n()
}

/// A key of type `K` as the map sees it: a thin wrapper with the same layout.
#[derive(Clone, Copy)]
pub struct EnumKeyImpl<K: PrimitiveEnum>(pub K);

impl<K: PrimitiveEnum> TransmuteSafe<EnumKeyImpl<K>> for K {
    open spec fn reinterpret_spec(self) -> EnumKeyImpl<K> {
        EnumKeyImpl(self)
    }

    fn reinterpret(self) -> (r: EnumKeyImpl<K>) {
        EnumKeyImpl(self)
    }
}

/// The storage index of a wrapped key.
fn key_impl_to_index<K: PrimitiveEnum>(key: EnumKeyImpl<K>) -> (r: usize)
    ensures
        r as nat == index_of(key.0),
        r < max_variants::<K>(),
{
    let repr: DiscriminantOf<K> = key.0.discriminant();
    proof {
        key.0.lemma_discriminant_in_range();
    }
    into_usize(repr)
}

/// The storage index of `key`: its discriminant, which is below
/// `max_variants::<K>()`.
pub fn key_to_index<K: PrimitiveEnum>(key: K) -> (r: usize)
    ensures
        r as nat == index_of(key),
        r < max_variants::<K>(),
{
    let key_impl: EnumKeyImpl<K> = transmute_safe(key);
    key_impl_to_index(key_impl)
}

} // verus!
