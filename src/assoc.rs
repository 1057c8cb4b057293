use vstd::prelude::*;

use crate::{index_of, key_to_index, max_variants, max_variants_exec, PrimitiveEnum};

verus! {

/// Relies on std's `From<[T; N]> for Vec<T>`: the vector holds the array's
/// elements in order.
#[verifier::external_body]
pub(crate) fn array_into_vec<T, const N: usize>(values: [T; N]) -> (r: Vec<T>)
    ensures
        r@ == values@,
{
    Vec::from(values)
}

/// Associates each key of type `K` with a value of type `V`.
///
/// The value for `key` sits in the slot whose index is the discriminant of
/// `key`; there are `max_variants::<K>()` slots.
pub struct Assoc<K: PrimitiveEnum, V> {
    storage: Vec<V>,
    key: core::marker::PhantomData<K>,
}

impl<K: PrimitiveEnum, V> View for Assoc<K, V> {
    type V = Seq<V>;

    /// The slots in storage order.
    closed spec fn view(&self) -> Seq<V> {
        self.storage@
    }
}

impl<K: PrimitiveEnum, V> Assoc<K, V> {
    /// Every key of `K` has a slot: there are exactly `max_variants::<K>()`.
    pub open spec fn wf(&self) -> bool {
        self@.len() == max_variants::<K>()
    }

    /// The value that the map holds for `key`.
    pub open spec fn spec_get(&self, key: K) -> V {
        self@[index_of(key) as int]
    }

    /// Builds a map whose slot `i` holds `values[i]`.
    pub fn from_values<const N: usize>(values: [V; N]) -> (r: Self)
        requires
            N == max_variants::<K>(),
        ensures
            r.wf(),
            r@ == values@,
    {
        Assoc { storage: array_into_vec(values), key: core::marker::PhantomData }
    }

    /// The number of slots, `max_variants::<K>()`.
    pub fn len(&self) -> (r: usize)
        requires
            self.wf(),
        ensures
            r == self@.len(),
            r == max_variants::<K>(),
    {
        max_variants_exec::<K>()
    }

    /// Whether the map has no slots.
    pub fn is_empty(&self) -> (r: bool)
        requires
            self.wf(),
        ensures
            r == (self@.len() == 0),
    {
        self.len() == 0
    }

    /// The value associated with `key`.
    pub fn get(&self, key: K) -> (r: &V)
        requires
            self.wf(),
        ensures
            index_of(key) < self@.len(),
            *r == self.spec_get(key),
    {
        let idx = key_to_index(key);
        &self.storage[idx]
    }

    /// The value associated with `key`, read with a bounds check.
    pub fn const_get(&self, key: K) -> (r: &V)
        requires
            self.wf(),
        ensures
            index_of(key) < self@.len(),
            *r == self.spec_get(key),
    {
        let idx = key_to_index(key);
        &self.storage[idx]
    }

    /// A mutable reference to the value associated with `key`; the other
    /// slots are left as they are.
    pub fn get_mut(&mut self, key: K) -> (r: &mut V)
        requires
            old(self).wf(),
        ensures
            index_of(key) < old(self)@.len(),
            *r == old(self).spec_get(key),
            final(self)@ == old(self)@.update(index_of(key) as int, *final(r)),
    {
        let idx = key_to_index(key);
        &mut self.storage[idx]
    }

    /// A mutable reference to the value associated with `key`, taken with a
    /// bounds check; the other slots are left as they are.
    pub fn const_get_mut(&mut self, key: K) -> (r: &mut V)
        requires
            old(self).wf(),
        ensures
            index_of(key) < old(self)@.len(),
            *r == old(self).spec_get(key),
            final(self)@ == old(self)@.update(index_of(key) as int, *final(r)),
    {
        let idx = key_to_index(key);
        &mut self.storage[idx]
    }

    /// All the values, in storage order.
    pub fn into_values(self) -> (r: Vec<V>)
        ensures
            r@ == self@,
    {
        self.storage
    }

    /// All the values, in storage order.
    pub fn values(&self) -> (r: &[V])
        ensures
            r@ == self@,
    {
        self.storage.as_slice()
    }

    /// All the values, in storage order, for mutation in place.
    pub fn values_mut(&mut self) -> (r: &mut [V])
        ensures
            r@ == old(self)@,
            final(self)@ == final(r)@,
    {
        self.storage.as_mut_slice()
    }
}

impl<K: PrimitiveEnum, V> core::ops::Index<K> for Assoc<K, V> {
    type Output = V;

    /// The value associated with `key`, as `map[key]`.
    fn index(&self, key: K) -> (r: &V)
        ensures
            *r == self.spec_get(key),
    {
        self.get(key)
    }
}

impl<K: PrimitiveEnum, V> vstd::std_specs::core::IndexSpecImpl<K> for Assoc<K, V> {
    open spec fn index_req(&self, key: &K) -> bool {
        self.wf()
    }
}

impl<K: PrimitiveEnum, V: Default> Default for Assoc<K, V> {
    /// A map whose slots each hold a default value of `V`.
    fn default() -> (r: Self)
        ensures
            r.wf(),
            forall|i: int| 0 <= i < r@.len() ==> call_ensures(V::default, (), #[trigger] r@[i]),
    {
        let n = max_variants_exec::<K>();
        let mut storage: Vec<V> = Vec::new();
        let mut i: usize = 0;
        while i < n
            invariant
                i <= n,
                n == max_variants::<K>(),
                storage@.len() == i,
                forall|j: int| 0 <= j < i ==> call_ensures(V::default, (), #[trigger] storage@[j]),
            decreases n - i,
        {
            storage.push(V::default());
            i += 1;
        }
        Assoc { storage, key: core::marker::PhantomData }
    }
}

impl<K: PrimitiveEnum, V> Assoc<K, Option<V>> {
    /// A map whose slots are all still empty.
    pub fn new_uninit() -> (r: Self)
        ensures
            r.wf(),
            forall|i: int| 0 <= i < r@.len() ==> r@[i] is None,
    {
        let n = max_variants_exec::<K>();
        let mut storage: Vec<Option<V>> = Vec::new();
        let mut i: usize = 0;
        while i < n
            invariant
                i <= n,
                n == max_variants::<K>(),
                storage@.len() == i,
                forall|j: int| 0 <= j < i ==> storage@[j] is None,
            decreases n - i,
        {
            storage.push(None);
            i += 1;
        }
        Assoc { storage, key: core::marker::PhantomData }
    }

    /// The map that holds the value of each slot, once every slot is filled.
    pub fn assume_init(self) -> (r: Assoc<K, V>)
        requires
            self.wf(),
            forall|i: int| 0 <= i < self@.len() ==> self@[i] is Some,
        ensures
            r.wf(),
            r@.len() == self@.len(),
            forall|i: int| 0 <= i < self@.len() ==> self@[i] == Some(r@[i]),
    {
        let mut slots = self.storage;
        let n = slots.len();
        let mut values: Vec<V> = Vec::new();
        let mut i: usize = 0;
        while i < n
            invariant
                i <= n,
                n == self@.len(),
                slots@.len() == n,
                values@.len() == i,
                forall|j: int| 0 <= j < i ==> self@[j] == Some(values@[j]),
                forall|j: int| i <= j < n ==> slots@[j] == self@[j],
                forall|j: int| 0 <= j < n ==> self@[j] is Some,
            decreases n - i,
        {
            if let Some(v) = slots[i].take() {
                values.push(v);
            }
            i += 1;
        }
        Assoc { storage: values, key: core::marker::PhantomData }
    }
}

} // verus!
