use vstd::prelude::*;

use crate::assoc::Assoc;
use crate::{index_of, max_variants, ConstIntoUSize, PrimitiveEnum};

verus! {

/// A map built from `values` holds, for each key, the value at that key's
/// index in `values`.
pub proof fn lemma_from_values_round_trip<K: PrimitiveEnum, V, const N: usize>(
    values: [V; N],
    map: Assoc<K, V>,
    key: K,
)
    requires
        map@ == values@,
        index_of(key) < N,
    ensures
        map.spec_get(key) == values@[index_of(key) as int],
{
}

/// Writing a value through the slot of one key gives that key the new value
/// and leaves every key with another index as it was.
pub proof fn lemma_single_slot_update<K: PrimitiveEnum, V>(
    before: Assoc<K, V>,
    after: Assoc<K, V>,
    key: K,
    value: V,
    other: K,
)
    requires
        before.wf(),
        index_of(key) < before@.len(),
        index_of(other) < before@.len(),
        after@ == before@.update(index_of(key) as int, value),
    ensures
        after.wf(),
        after.spec_get(key) == value,
        index_of(other) != index_of(key) ==> after.spec_get(other) == before.spec_get(other),
{
}

/// Distinct keys have distinct storage indices.
pub proof fn lemma_index_injective<K: PrimitiveEnum>(a: K, b: K)
    ensures
        index_of(a) == index_of(b) ==> a == b,
{
    a.lemma_discriminant_in_range();
    b.lemma_discriminant_in_range();
    a.lemma_discriminant_injective(b);
}

/// `max_variants::<K>()` is one more than the greatest discriminant of `K`:
/// every index lies below it, and some key has the index just below it.
pub proof fn lemma_max_variants_is_greatest_plus_one<K: PrimitiveEnum>()
    ensures
        forall|k: K| #[trigger] index_of(k) < max_variants::<K>(),
        exists|k: K| #[trigger] index_of(k) + 1 == max_variants::<K>(),
{
    assert forall|k: K| #[trigger] index_of(k) < max_variants::<K>() by {
        k.lemma_discriminant_in_range();
    }
    K::lemma_greatest_discriminant();
    let g = choose|k: K| #[trigger] k.discriminant_value_of().as_int() + 1
        == max_variants::<K>();
    g.lemma_discriminant_in_range();
    assert(index_of(g) + 1 == max_variants::<K>());
}

} // verus!
