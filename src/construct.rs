use vstd::prelude::*;
use vstd::set_lib::{lemma_int_range, lemma_subset_equality, set_int_range};

use crate::assoc::{array_into_vec, Assoc};
use crate::{index_of, key_to_index, max_variants, max_variants_exec, PrimitiveEnum};

verus! {

/// Whether two positions of `keys` hold keys with the same storage index.
pub open spec fn has_duplicate_indices<K: PrimitiveEnum>(keys: Seq<K>) -> bool {
    exists|i: int, j: int| 0 <= i < j < keys.len() && index_of(keys[i]) == index_of(keys[j])
}

/// Carries the length of an array of `T` without holding its values.
pub struct PhantomArray<T, const N: usize>(core::marker::PhantomData<[T; N]>);

impl<T, const N: usize> PhantomArray<T, N> {
    /// Records the length of `_array`.
    pub fn new(_array: &[T; N]) -> (r: Self) {
        PhantomArray(core::marker::PhantomData)
    }
}

/// Whether two of `keys` map to the same storage index.
pub fn has_duplicate_keys<K: PrimitiveEnum, V, const N: usize>(
    keys: &[K; N],
    _values: PhantomArray<V, N>,
) -> (r: bool)
    ensures
        r == has_duplicate_indices(keys@),
{
    let mut i: usize = 0;
    while i < N
        invariant
            i <= N,
            keys@.len() == N,
            forall|a: int, b: int|
                0 <= a < i && a < b < N ==> index_of(keys@[a]) != index_of(keys@[b]),
        decreases N - i,
    {
        let ki = key_to_index(keys[i]);
        let mut j: usize = i + 1;
        while j < N
            invariant
                i < j <= N,
                keys@.len() == N,
                ki as nat == index_of(keys@[i as int]),
                forall|a: int, b: int|
                    0 <= a < i && a < b < N ==> index_of(keys@[a]) != index_of(keys@[b]),
                forall|b: int| i < b < j ==> index_of(keys@[i as int]) != index_of(keys@[b]),
            decreases N - j,
        {
            if ki == key_to_index(keys[j]) {
                return true;
            }
            j += 1;
        }
        i += 1;
    }
    false
}

/// Keys with pairwise distinct indices, all below their count, use every
/// index below their count.
proof fn lemma_distinct_indices_cover<K: PrimitiveEnum>(keys: Seq<K>, s: int)
    requires
        forall|j: int| 0 <= j < keys.len() ==> index_of(#[trigger] keys[j]) < keys.len(),
        !has_duplicate_indices(keys),
        0 <= s < keys.len(),
    ensures
        exists|j: int| 0 <= j < keys.len() && index_of(keys[j]) == s,
{
    let idx = keys.map_values(|k: K| index_of(k) as int);
    assert(idx.no_duplicates()) by {
        assert forall|a: int, b: int| 0 <= a < idx.len() && 0 <= b < idx.len() && a != b
            implies idx[a] != idx[b] by {
            if a < b {
                assert(index_of(keys[a]) != index_of(keys[b]));
            } else {
                assert(index_of(keys[b]) != index_of(keys[a]));
            }
        }
    }
    idx.unique_seq_to_set();
    let full = set_int_range(0, keys.len() as int);
    lemma_int_range(0, keys.len() as int);
    assert(idx.to_set().subset_of(full));
    lemma_subset_equality(idx.to_set(), full);
    assert(full.contains(s));
    assert(idx.to_set().contains(s));
    let j = choose|j: int| 0 <= j < idx.len() && idx[j] == s;
    assert(index_of(keys[j]) == s);
}

/// Builds a map from `keys[i] => values[i]` pairs.
///
/// Succeeds exactly when there is one pair per slot and no two keys share an
/// index; each key then holds its own value.
pub fn assoc<K: PrimitiveEnum, V, const N: usize>(keys: [K; N], values: [V; N]) -> (r: Option<
    Assoc<K, V>,
>)
    ensures
        r is Some <==> (N == max_variants::<K>() && !has_duplicate_indices(keys@)),
        r matches Some(m) ==> m.wf() && forall|i: int|
            0 <= i < N ==> m.spec_get(#[trigger] keys@[i]) == values@[i],
{
    if N != max_variants_exec::<K>() {
        return None;
    }
    if has_duplicate_keys(&keys, PhantomArray::new(&values)) {
        return None;
    }
    let mut map: Assoc<K, Option<V>> = Assoc::new_uninit();
    let mut rest = array_into_vec(values);
    let mut i: usize = N;
    while i > 0
        invariant
            i <= N,
            N == max_variants::<K>(),
            keys@.len() == N,
            map.wf(),
            !has_duplicate_indices(keys@),
            rest@ == values@.subrange(0, i as int),
            forall|j: int| i <= j < N ==> index_of(#[trigger] keys@[j]) < N,
            forall|j: int| i <= j < N ==> map.spec_get(#[trigger] keys@[j]) == Some(values@[j]),
            forall|s: int|
                0 <= s < N ==> (map@[s] is Some ==> exists|j: int|
                    i <= j < N && index_of(#[trigger] keys@[j]) == s),
        decreases i,
    {
        i -= 1;
        let value = rest.pop().unwrap();
        let slot = map.const_get_mut(keys[i]);
        *slot = Some(value);
        assert forall|j: int| i < j < N implies index_of(#[trigger] keys@[j]) != index_of(
            keys@[i as int],
        ) by {
            if index_of(keys@[j]) == index_of(keys@[i as int]) {
                assert(has_duplicate_indices(keys@));
            }
        }
    }
    assert forall|s: int| 0 <= s < N implies map@[s] is Some by {
        lemma_distinct_indices_cover(keys@, s);
    }
    Some(map.assume_init())
}

} // verus!
