//! Account identities and the association store that the ledgers keep their
//! per-account records in.

use odra_core::prelude::Address;
use vstd::prelude::*;

verus! {

/// `odra_core`'s `Address`: the identity of an account or of a contract
/// package. Opaque here: it is carried, copied and compared, never looked
/// into.
#[verifier::external_type_specification]
#[verifier::external_body]
pub struct ExAddress(Address);

/// A key that records are filed under: one key can be told from another.
pub(crate) trait Key: Sized {
    /// Whether `self` and `other` are the same key.
    fn same(&self, other: &Self) -> (r: bool)
        ensures
            r == (*self == *other),
    ;
}

/// `Address`'s own `==` (the `PartialEq` that the type derives, over the kind
/// of identity and its 32-byte hash): true exactly when both values name the
/// same account or the same contract package. Trusted; nothing is proved of
/// it.
#[verifier::external_body]
pub(crate) fn same_address(a: Address, b: Address) -> (r: bool)
    ensures
        r == (a == b),
{
    a == b
}

impl Key for Address {
    fn same(&self, other: &Self) -> (r: bool) {
        same_address(*self, *other)
    }
}

impl Key for (Address, Address) {
    fn same(&self, other: &Self) -> (r: bool) {
        same_address(self.0, other.0) && same_address(self.1, other.1)
    }
}

/// Some record is filed under `key`.
pub open spec fn has_key<K, T>(entries: Seq<(K, T)>, key: K) -> bool {
    exists|i: int| 0 <= i < entries.len() && (#[trigger] entries[i]).0 == key
}

/// A position at which `key` is filed (the only one where keys are distinct).
pub open spec fn index_of<K, T>(entries: Seq<(K, T)>, key: K) -> int {
    choose|i: int| 0 <= i < entries.len() && (#[trigger] entries[i]).0 == key
}

/// No key is filed twice.
pub open spec fn distinct_keys<K, T>(entries: Seq<(K, T)>) -> bool {
    forall|i: int, j: int|
        0 <= i < j < entries.len() ==> (#[trigger] entries[i]).0 != (#[trigger] entries[j]).0
}

/// The record filed under `key`, if there is one.
pub open spec fn value_of<K, T>(entries: Seq<(K, T)>, key: K) -> Option<T> {
    if has_key(entries, key) {
        Some(entries[index_of(entries, key)].1)
    } else {
        None
    }
}

/// `entries` with `value` filed under `key`: in place where the key is already
/// there, at the end otherwise.
pub open spec fn put<K, T>(entries: Seq<(K, T)>, key: K, value: T) -> Seq<(K, T)> {
    if has_key(entries, key) {
        entries.update(index_of(entries, key), (key, value))
    } else {
        entries.push((key, value))
    }
}

/// The sum of `weight` over every record on file.
pub open spec fn sum_of<K, T>(entries: Seq<(K, T)>, weight: spec_fn(T) -> nat) -> nat
    decreases entries.len(),
{
    if entries.len() == 0 {
        0
    } else {
        sum_of(entries.drop_last(), weight) + weight(entries.last().1)
    }
}

/// The weight of the record under `key`, zero where there is none.
pub open spec fn weight_of<K, T>(entries: Seq<(K, T)>, key: K, weight: spec_fn(T) -> nat) -> nat {
    match value_of(entries, key) {
        Some(v) => weight(v),
        None => 0,
    }
}

/// Where keys are distinct, a key found at `i` is filed at `i`.
pub proof fn lemma_index_unique<K, T>(entries: Seq<(K, T)>, key: K, i: int)
    requires
        distinct_keys(entries),
        0 <= i < entries.len(),
        entries[i].0 == key,
    ensures
        has_key(entries, key),
        index_of(entries, key) == i,
        value_of(entries, key) == Some(entries[i].1),
{
    let j = index_of(entries, key);
    assert(0 <= j < entries.len() && entries[j].0 == key);
    if j < i {
        assert(entries[j].0 != entries[i].0);
    } else if i < j {
        assert(entries[i].0 != entries[j].0);
    }
}

/// Filing a record keeps the keys distinct.
pub proof fn lemma_put_distinct<K, T>(entries: Seq<(K, T)>, key: K, value: T)
    requires
        distinct_keys(entries),
    ensures
        distinct_keys(put(entries, key, value)),
{
    let after = put(entries, key, value);
    if has_key(entries, key) {
        let k = index_of(entries, key);
        assert forall|i: int, j: int| 0 <= i < j < after.len() implies (#[trigger] after[i]).0 != (
        #[trigger] after[j]).0 by {
            assert(after[i].0 == entries[i].0);
            assert(after[j].0 == entries[j].0);
        }
    } else {
        assert forall|i: int, j: int| 0 <= i < j < after.len() implies (#[trigger] after[i]).0 != (
        #[trigger] after[j]).0 by {
            if j < entries.len() {
                assert(after[i] == entries[i]);
                assert(after[j] == entries[j]);
            } else {
                assert(after[i] == entries[i]);
                assert(after[j].0 == key);
            }
        }
    }
}

/// After filing `value` under `key`, `key` reads `value` and every other key
/// reads what it read before.
pub proof fn lemma_put_value<K, T>(entries: Seq<(K, T)>, key: K, value: T, other: K)
    requires
        distinct_keys(entries),
    ensures
        value_of(put(entries, key, value), other) == if other == key {
            Some(value)
        } else {
            value_of(entries, other)
        },
{
    let after = put(entries, key, value);
    lemma_put_distinct(entries, key, value);
    if has_key(entries, key) {
        let k = index_of(entries, key);
        assert(after[k] == (key, value));
        if other == key {
            lemma_index_unique(after, key, k);
        } else if has_key(entries, other) {
            let o = index_of(entries, other);
            assert(after[o] == entries[o]);
            lemma_index_unique(after, other, o);
        } else {
            if has_key(after, other) {
                let o = index_of(after, other);
                assert(entries[o].0 == other);
            }
        }
    } else {
        let k = entries.len() as int;
        assert(after[k] == (key, value));
        if other == key {
            lemma_index_unique(after, key, k);
        } else if has_key(entries, other) {
            let o = index_of(entries, other);
            assert(after[o] == entries[o]);
            lemma_index_unique(after, other, o);
        } else {
            if has_key(after, other) {
                let o = index_of(after, other);
                assert(o < k);
                assert(entries[o] == after[o]);
            }
        }
    }
}

/// Replacing the record at `i` changes the sum by the difference of the two
/// weights.
pub proof fn lemma_sum_update<K, T>(
    entries: Seq<(K, T)>,
    i: int,
    entry: (K, T),
    weight: spec_fn(T) -> nat,
)
    requires
        0 <= i < entries.len(),
    ensures
        sum_of(entries, weight) >= weight(entries[i].1),
        sum_of(entries.update(i, entry), weight) == sum_of(entries, weight) - weight(entries[i].1)
            + weight(entry.1),
    decreases entries.len(),
{
    let after = entries.update(i, entry);
    if i == entries.len() - 1 {
        assert(after.drop_last() =~= entries.drop_last());
    } else {
        lemma_sum_update(entries.drop_last(), i, entry, weight);
        assert(after.drop_last() =~= entries.drop_last().update(i, entry));
        assert(after.last() == entries.last());
    }
}

/// Filing `value` under `key` changes the sum by the weight of `value` less
/// the weight of what `key` held before.
pub proof fn lemma_put_sum<K, T>(
    entries: Seq<(K, T)>,
    key: K,
    value: T,
    weight: spec_fn(T) -> nat,
)
    requires
        distinct_keys(entries),
    ensures
        sum_of(entries, weight) >= weight_of(entries, key, weight),
        sum_of(put(entries, key, value), weight) == sum_of(entries, weight) - weight_of(
            entries,
            key,
            weight,
        ) + weight(value),
{
    if has_key(entries, key) {
        lemma_sum_update(entries, index_of(entries, key), (key, value), weight);
    } else {
        let after = entries.push((key, value));
        assert(after.drop_last() =~= entries);
    }
}

/// A store of one record per key, in the order in which the keys were first
/// filed.
pub(crate) struct AccountMap<K, T> {
    entries: Vec<(K, T)>,
}

impl<K, T> View for AccountMap<K, T> {
    type V = Seq<(K, T)>;

    closed spec fn view(&self) -> Seq<(K, T)> {
        self.entries@
    }
}

impl<K: Key, T: Copy> AccountMap<K, T> {
    /// No key is filed twice.
    pub open spec fn wf(&self) -> bool {
        distinct_keys(self@)
    }

    /// An empty store.
    pub fn new() -> (m: Self)
        ensures
            m.wf(),
            m@ == Seq::<(K, T)>::empty(),
    {
        AccountMap { entries: Vec::new() }
    }

    fn position(&self, key: &K) -> (r: Option<usize>)
        requires
            self.wf(),
        ensures
            match r {
                Some(i) => has_key(self@, *key) && i == index_of(self@, *key),
                None => !has_key(self@, *key),
            },
    {
        let mut i: usize = 0;
        while i < self.entries.len()
            invariant
                self.wf(),
                0 <= i <= self.entries.len(),
                forall|j: int| 0 <= j < i ==> (#[trigger] self.entries@[j]).0 != *key,
            decreases self.entries.len() - i,
        {
            if self.entries[i].0.same(key) {
                proof {
                    lemma_index_unique(self@, *key, i as int);
                }
                return Some(i);
            }
            i += 1;
        }
        None
    }

    /// Reads the record of `key`.
    pub fn get(&self, key: &K) -> (r: Option<T>)
        requires
            self.wf(),
        ensures
            r == value_of(self@, *key),
    {
        match self.position(key) {
            Some(i) => Some(self.entries[i].1),
            None => None,
        }
    }

    /// Files `value` under `key`, replacing what `key` held.
    pub fn set(&mut self, key: K, value: T)
        requires
            old(self).wf(),
        ensures
            final(self).wf(),
            final(self)@ == put(old(self)@, key, value),
    {
        proof {
            lemma_put_distinct(self@, key, value);
        }
        match self.position(&key) {
            Some(i) => {
                self.entries.set(i, (key, value));
            },
            None => {
                self.entries.push((key, value));
            },
        }
    }
}

} // verus!
