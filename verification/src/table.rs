//! A small map keyed by address, kept in insertion order.

use crate::address::Address;
use vstd::prelude::*;

verus! {

/// The map that a list of distinct keys and a list of values stand for: the
/// key at each position is bound to the value at that position.
pub open spec fn bindings<V>(keys: Seq<Address>, values: Seq<V>) -> Map<Address, V> {
    Map::new(|k: Address| keys.contains(k), |k: Address| values[keys.index_of(k)])
}

proof fn lemma_binding_at<V>(keys: Seq<Address>, values: Seq<V>, i: int)
    requires
        keys.no_duplicates(),
        keys.len() == values.len(),
        0 <= i < keys.len(),
    ensures
        bindings(keys, values).contains_key(keys[i]),
        bindings(keys, values)[keys[i]] == values[i],
        keys.index_of(keys[i]) == i,
{
    let j = keys.index_of(keys[i]);
    assert(0 <= j < keys.len() && keys[j] == keys[i]);
}

proof fn lemma_bindings_push<V>(keys: Seq<Address>, values: Seq<V>, key: Address, value: V)
    requires
        keys.no_duplicates(),
        keys.len() == values.len(),
        !keys.contains(key),
    ensures
        keys.push(key).no_duplicates(),
        bindings(keys.push(key), values.push(value)) == bindings(keys, values).insert(key, value),
{
    let keys2 = keys.push(key);
    let values2 = values.push(value);
    assert forall|i: int, j: int| 0 <= i < keys2.len() && 0 <= j < keys2.len() && i != j implies
        keys2[i] != keys2[j] by {
        if i < keys.len() {
            assert(keys.contains(keys[i]));
        }
        if j < keys.len() {
            assert(keys.contains(keys[j]));
        }
    }
    let m2 = bindings(keys2, values2);
    let m = bindings(keys, values).insert(key, value);
    assert forall|k: Address| m2.contains_key(k) == m.contains_key(k) by {
        if keys2.contains(k) {
            let i = choose|i: int| 0 <= i < keys2.len() && keys2[i] == k;
            if i < keys.len() {
                assert(keys[i] == k);
            }
        }
        if keys.contains(k) {
            let i = choose|i: int| 0 <= i < keys.len() && keys[i] == k;
            assert(keys2[i] == k);
        }
        if k == key {
            assert(keys2[keys.len() as int] == k);
        }
    }
    assert forall|k: Address| m2.contains_key(k) implies m2[k] == m[k] by {
        let i = choose|i: int| 0 <= i < keys2.len() && keys2[i] == k;
        lemma_binding_at(keys2, values2, i);
        if i < keys.len() {
            assert(keys[i] == k);
            lemma_binding_at(keys, values, i);
        }
    }
    assert(m2 =~= m);
}

proof fn lemma_bindings_update<V>(keys: Seq<Address>, values: Seq<V>, i: int, value: V)
    requires
        keys.no_duplicates(),
        keys.len() == values.len(),
        0 <= i < keys.len(),
    ensures
        bindings(keys, values.update(i, value)) == bindings(keys, values).insert(keys[i], value),
{
    let values2 = values.update(i, value);
    let m2 = bindings(keys, values2);
    let m = bindings(keys, values).insert(keys[i], value);
    assert forall|k: Address| m2.contains_key(k) == m.contains_key(k) by {
        if k == keys[i] {
            assert(keys.contains(k));
        }
    }
    assert forall|k: Address| m2.contains_key(k) implies m2[k] == m[k] by {
        let j = choose|j: int| 0 <= j < keys.len() && keys[j] == k;
        lemma_binding_at(keys, values2, j);
        lemma_binding_at(keys, values, j);
    }
    assert(m2 =~= m);
}

proof fn lemma_bindings_remove<V>(keys: Seq<Address>, values: Seq<V>, i: int)
    requires
        keys.no_duplicates(),
        keys.len() == values.len(),
        0 <= i < keys.len(),
    ensures
        keys.remove(i).no_duplicates(),
        bindings(keys.remove(i), values.remove(i)) == bindings(keys, values).remove(keys[i]),
{
    let keys2 = keys.remove(i);
    let values2 = values.remove(i);
    assert forall|a: int, b: int| 0 <= a < keys2.len() && 0 <= b < keys2.len() && a != b implies
        keys2[a] != keys2[b] by {
        let a1 = if a < i { a } else { a + 1 };
        let b1 = if b < i { b } else { b + 1 };
        assert(keys2[a] == keys[a1]);
        assert(keys2[b] == keys[b1]);
    }
    let m2 = bindings(keys2, values2);
    let m = bindings(keys, values).remove(keys[i]);
    assert forall|k: Address| m2.contains_key(k) == m.contains_key(k) by {
        if keys2.contains(k) {
            let a = choose|a: int| 0 <= a < keys2.len() && keys2[a] == k;
            let a1 = if a < i { a } else { a + 1 };
            assert(keys[a1] == k);
            assert(keys.contains(k));
        }
        if keys.contains(k) && k != keys[i] {
            let b = choose|b: int| 0 <= b < keys.len() && keys[b] == k;
            let b2 = if b < i { b } else { b - 1 };
            assert(keys2[b2] == k);
        }
    }
    assert forall|k: Address| m2.contains_key(k) implies m2[k] == m[k] by {
        let a = choose|a: int| 0 <= a < keys2.len() && keys2[a] == k;
        let a1 = if a < i { a } else { a + 1 };
        assert(keys[a1] == k);
        lemma_binding_at(keys2, values2, a);
        lemma_binding_at(keys, values, a1);
    }
    assert(m2 =~= m);
}

/// The two columns of a map: the keys, and the value of each.
struct Columns<V> {
    keys: Vec<Address>,
    values: Vec<V>,
}

/// A finite map from addresses to values.
pub struct AddressMap<V> {
    columns: Columns<V>,
}

impl<V> View for AddressMap<V> {
    type V = Map<Address, V>;

    closed spec fn view(&self) -> Map<Address, V> {
        bindings(self.columns.keys@, self.columns.values@)
    }
}

impl<V> AddressMap<V> {
    /// Every key occurs once, with one value.
    #[verifier::type_invariant]
    spec fn inv(self) -> bool {
        &&& self.columns.keys@.len() == self.columns.values@.len()
        &&& self.columns.keys@.no_duplicates()
    }
}

fn position(keys: &Vec<Address>, key: &Address) -> (r: Option<usize>)
    ensures
        match r {
            Some(i) => i < keys@.len() && keys@[i as int] == *key,
            None => !keys@.contains(*key),
        },
{
    let mut i: usize = 0;
    while i < keys.len()
        invariant
            i <= keys@.len(),
            forall|j: int| 0 <= j < i ==> keys@[j] != *key,
        decreases keys@.len() - i,
    {
        if keys[i] == *key {
            return Some(i);
        }
        i = i + 1;
    }
    None
}

impl<V: Copy> AddressMap<V> {
    /// The map binds finitely many addresses.
    pub proof fn lemma_finite(&self)
        ensures
            self@.dom().finite(),
    {
        vstd::seq_lib::seq_to_set_is_finite(self.columns.keys@);
        assert(self@.dom() =~= self.columns.keys@.to_set());
    }

    /// The map that binds nothing.
    pub fn new() -> (m: Self)
        ensures
            m@ == Map::<Address, V>::empty(),
    {
        let m = AddressMap { columns: Columns { keys: Vec::new(), values: Vec::new() } };
        assert(m@ =~= Map::<Address, V>::empty());
        m
    }

    /// Tells whether `key` is bound.
    pub fn contains(&self, key: &Address) -> (r: bool)
        ensures
            r == self@.contains_key(*key),
    {
        position(&self.columns.keys, key).is_some()
    }

    /// The value bound to `key`, if any.
    pub fn get(&self, key: &Address) -> (r: Option<V>)
        ensures
            r == (if self@.contains_key(*key) {
                Some(self@[*key])
            } else {
                None
            }),
    {
        proof {
            use_type_invariant(self);
        }
        match position(&self.columns.keys, key) {
            Some(i) => {
                proof {
                    lemma_binding_at(self.columns.keys@, self.columns.values@, i as int);
                }
                Some(self.columns.values[i])
            },
            None => None,
        }
    }

    /// Takes the columns out to change them, and leaves the map empty until
    /// they are put back.
    fn take_columns(&mut self) -> (columns: Columns<V>)
        ensures
            columns.keys@ == old(self).columns.keys@,
            columns.values@ == old(self).columns.values@,
            columns.keys@.len() == columns.values@.len(),
            columns.keys@.no_duplicates(),
            bindings(columns.keys@, columns.values@) == old(self)@,
    {
        proof {
            use_type_invariant(&*self);
        }
        let mut columns = Columns { keys: Vec::new(), values: Vec::new() };
        core::mem::swap(&mut self.columns, &mut columns);
        columns
    }

    /// Binds `key` to `value`, in place of any value bound to it before.
    pub fn insert(&mut self, key: Address, value: V)
        ensures
            final(self)@ == old(self)@.insert(key, value),
    {
        let mut columns = self.take_columns();
        match position(&columns.keys, &key) {
            Some(i) => {
                proof {
                    lemma_bindings_update(columns.keys@, columns.values@, i as int, value);
                }
                columns.values.set(i, value);
            },
            None => {
                proof {
                    lemma_bindings_push(columns.keys@, columns.values@, key, value);
                }
                columns.keys.push(key);
                columns.values.push(value);
            },
        }
        self.columns = columns;
    }

    /// Removes the binding of `key`, if there is one.
    pub fn remove(&mut self, key: &Address)
        ensures
            final(self)@ == old(self)@.remove(*key),
    {
        let mut columns = self.take_columns();
        match position(&columns.keys, key) {
            Some(i) => {
                proof {
                    lemma_bindings_remove(columns.keys@, columns.values@, i as int);
                }
                columns.keys.remove(i);
                columns.values.remove(i);
            },
            None => {
                assert(old(self)@.remove(*key) =~= old(self)@);
            },
        }
        self.columns = columns;
    }

    /// A copy of the map.
    pub fn duplicate(&self) -> (m: Self)
        ensures
            m@ == self@,
    {
        proof {
            use_type_invariant(self);
        }
        let mut keys: Vec<Address> = Vec::new();
        let mut values: Vec<V> = Vec::new();
        let mut i: usize = 0;
        while i < self.columns.keys.len()
            invariant
                i <= self.columns.keys@.len(),
                self.columns.keys@.len() == self.columns.values@.len(),
                keys@ == self.columns.keys@.subrange(0, i as int),
                values@ == self.columns.values@.subrange(0, i as int),
            decreases self.columns.keys@.len() - i,
        {
            keys.push(self.columns.keys[i]);
            values.push(self.columns.values[i]);
            i = i + 1;
        }
        assert(keys@ =~= self.columns.keys@);
        assert(values@ =~= self.columns.values@);
        AddressMap { columns: Columns { keys, values } }
    }
}

} // verus!
