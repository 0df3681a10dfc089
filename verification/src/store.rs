//! Entities kept under an account's address.

use vstd::prelude::*;
use crate::address::Address;

verus! {

/// The map that `k` writes build up, the later write to a key replacing the
/// earlier one.
pub open spec fn map_of<V>(entries: Seq<(Address, V)>, k: int) -> Map<Address, V>
    decreases k,
{
    if k <= 0 {
        Map::empty()
    } else {
        map_of(entries, k - 1).insert(entries[k - 1].0, entries[k - 1].1)
    }
}

/// A store of entities, one under each address at most: writing under an
/// address that holds an entity replaces it.
pub struct EntityStore<V> {
    pub entries: Vec<(Address, V)>,
}

impl<V> View for EntityStore<V> {
    type V = Map<Address, V>;

    open spec fn view(&self) -> Map<Address, V> {
        map_of(self.entries@, self.entries@.len() as int)
    }
}

/// The first `k` writes of a sequence build the same map whatever follows
/// them.
proof fn lemma_map_of_prefix<V>(a: Seq<(Address, V)>, b: Seq<(Address, V)>, k: int)
    requires
        0 <= k <= a.len(),
        k <= b.len(),
        forall|j: int| 0 <= j < k ==> a[j] == b[j],
    ensures
        map_of(a, k) == map_of(b, k),
    decreases k,
{
    if k > 0 {
        lemma_map_of_prefix(a, b, k - 1);
    }
}

/// A key that none of the writes from `from` on names is held as the writes
/// before `from` left it.
proof fn lemma_map_of_skips<V>(entries: Seq<(Address, V)>, key: Address, from: int, k: int)
    requires
        0 <= from <= k <= entries.len(),
        forall|j: int| from <= j < k ==> entries[j].0 != key,
    ensures
        map_of(entries, k).contains_key(key) == map_of(entries, from).contains_key(key),
        map_of(entries, k).contains_key(key) ==> map_of(entries, k)[key] == map_of(
            entries,
            from,
        )[key],
    decreases k,
{
    if k > from {
        lemma_map_of_skips(entries, key, from, k - 1);
    }
}

/// Replacing the last write to a key by another write to it is a write to
/// that key.
proof fn lemma_map_of_replace<V>(entries: Seq<(Address, V)>, at: int, value: V, k: int)
    requires
        0 <= at < k <= entries.len(),
        forall|j: int| at < j < k ==> entries[j].0 != entries[at].0,
    ensures
        map_of(entries.update(at, (entries[at].0, value)), k) =~= map_of(entries, k).insert(
            entries[at].0,
            value,
        ),
    decreases k,
{
    let replaced = entries.update(at, (entries[at].0, value));
    if k == at + 1 {
        lemma_map_of_prefix(replaced, entries, at);
    } else {
        lemma_map_of_replace(entries, at, value, k - 1);
    }
}

impl<V> EntityStore<V> {
    /// A store that holds nothing.
    pub fn new() -> (s: Self)
        ensures
            s@ == Map::<Address, V>::empty(),
    {
        EntityStore { entries: Vec::new() }
    }

    /// The place of the last write to `key`, if there is one.
    fn position(&self, key: &Address) -> (p: Option<usize>)
        ensures
            match p {
                Some(at) => {
                    &&& at < self.entries@.len()
                    &&& self.entries@[at as int].0 == *key
                    &&& forall|j: int| at < j < self.entries@.len() ==> self.entries@[j].0 != *key
                    &&& self@.contains_key(*key)
                    &&& self@[*key] == self.entries@[at as int].1
                },
                None => !self@.contains_key(*key),
            },
    {
        let mut i: usize = self.entries.len();
        while i > 0
            invariant
                i <= self.entries.len(),
                forall|j: int| i <= j < self.entries@.len() ==> self.entries@[j].0 != *key,
            decreases i,
        {
            i -= 1;
            if self.entries[i].0 == *key {
                proof {
                    lemma_map_of_skips(
                        self.entries@,
                        *key,
                        i + 1,
                        self.entries@.len() as int,
                    );
                }
                return Some(i);
            }
        }
        proof {
            lemma_map_of_skips(self.entries@, *key, 0, self.entries@.len() as int);
        }
        None
    }

    /// Whether an entity is kept under `key`.
    pub fn has(&self, key: &Address) -> (b: bool)
        ensures
            b == self@.contains_key(*key),
    {
        self.position(key).is_some()
    }

    /// The entity kept under `key`, if there is one.
    pub fn get(&self, key: &Address) -> (v: Option<&V>)
        ensures
            match v {
                Some(value) => self@.contains_key(*key) && *value == self@[*key],
                None => !self@.contains_key(*key),
            },
    {
        match self.position(key) {
            Some(at) => Some(&self.entries[at].1),
            None => None,
        }
    }

    /// Keeps `value` under `key`, in place of what was kept there.
    pub fn set(&mut self, key: Address, value: V)
        ensures
            final(self)@ == old(self)@.insert(key, value),
    {
        match self.position(&key) {
            Some(at) => {
                proof {
                    lemma_map_of_replace(
                        self.entries@,
                        at as int,
                        value,
                        self.entries@.len() as int,
                    );
                }
                self.entries.set(at, (key, value));
            },
            None => {
                let ghost before = self.entries@;
                self.entries.push((key, value));
                proof {
                    lemma_map_of_prefix(before, self.entries@, before.len() as int);
                }
            },
        }
    }
}

} // verus!
