use vstd::prelude::*;

verus! {

/// A key that can be compared by its abstract value.
pub trait CacheKey: View + Sized {
    fn same_key(&self, other: &Self) -> (same: bool)
        ensures
            same == (self@ == other@);
}

/// Whether `index` is the first entry of `entries` whose key is `key`.
pub open spec fn is_first_match<K: View, V>(entries: Seq<(K, V)>, key: K::V, index: int) -> bool {
    &&& 0 <= index < entries.len()
    &&& entries[index].0@ == key
    &&& forall|earlier: int| 0 <= earlier < index ==> entries[earlier].0@ != key
}

/// Whether some entry of `entries` has the key `key`.
pub open spec fn has_key<K: View, V>(entries: Seq<(K, V)>, key: K::V) -> bool {
    exists|index: int| 0 <= index < entries.len() && entries[index].0@ == key
}

/// A cache of at most `capacity` entries, ordered from least to most recently
/// used. Accessing an entry makes it the most recent; inserting into a full
/// cache evicts the least recent.
pub struct BoundedLruCache<K, V> {
    capacity: usize,
    entries: Vec<(K, V)>,
}

impl<K: CacheKey, V> BoundedLruCache<K, V> {
    /// The entries from least to most recently used.
    pub closed spec fn entries_spec(&self) -> Seq<(K, V)> {
        self.entries@
    }

    pub closed spec fn capacity_spec(&self) -> usize {
        self.capacity
    }

    /// The cache never holds more entries than its positive capacity.
    pub open spec fn well_formed(&self) -> bool {
        &&& self.capacity_spec() > 0
        &&& self.entries_spec().len() <= self.capacity_spec()
    }

    pub fn new(capacity: usize) -> (cache: Self)
        requires
            capacity > 0,
        ensures
            cache.well_formed(),
            cache.capacity_spec() == capacity,
            cache.entries_spec() == Seq::<(K, V)>::empty(),
    {
        Self { capacity, entries: Vec::new() }
    }

    /// Finds the first entry with `key`, makes it the most recently used and
    /// hands its value to `access`, which may change it; the result of
    /// `access` is returned. A miss changes nothing and does not call `access`.
    pub fn access_and_promote<T, F: FnOnce(&mut V) -> T>(&mut self, key: &K, access: F) -> (found:
        Option<T>)
        requires
            old(self).well_formed(),
            forall|value: &mut V| #[trigger] access.requires((value,)),
        ensures
            final(self).well_formed(),
            final(self).capacity_spec() == old(self).capacity_spec(),
            !has_key(old(self).entries_spec(), key@) ==> {
                &&& found is None
                &&& final(self).entries_spec() == old(self).entries_spec()
            },
            has_key(old(self).entries_spec(), key@) ==> exists|index: int, value: &mut V|
                {
                    &&& is_first_match(old(self).entries_spec(), key@, index)
                    &&& *value == old(self).entries_spec()[index].1
                    &&& found matches Some(result) && access.ensures((value,), result)
                    &&& final(self).entries_spec() == old(self).entries_spec().remove(index).push(
                        (old(self).entries_spec()[index].0, *final(value)),
                    )
                },
    {
        let mut index: usize = 0;
        while index < self.entries.len()
            invariant
                index <= self.entries@.len(),
                self.entries@ == old(self).entries@,
                self.capacity == old(self).capacity,
                old(self).well_formed(),
                forall|value: &mut V| #[trigger] access.requires((value,)),
                forall|earlier: int| 0 <= earlier < index ==> self.entries@[earlier].0@ != key@,
            decreases self.entries@.len() - index,
        {
            if self.entries[index].0.same_key(key) {
                let ghost before = self.entries@;
                let mut entry = self.entries.remove(index);
                let result = access(&mut entry.1);
                self.entries.push(entry);
                assert(is_first_match(before, key@, index as int));
                return Some(result);
            }
            index = index + 1;
        }
        assert(!has_key(self.entries@, key@));
        None
    }

    /// Adds an entry as the most recently used, evicting the least recently
    /// used entry when the cache is full.
    pub fn insert(&mut self, key: K, value: V)
        requires
            old(self).well_formed(),
        ensures
            final(self).well_formed(),
            final(self).capacity_spec() == old(self).capacity_spec(),
            old(self).entries_spec().len() == old(self).capacity_spec()
                ==> final(self).entries_spec() == old(self).entries_spec().drop_first().push(
                (key, value),
            ),
            old(self).entries_spec().len() < old(self).capacity_spec()
                ==> final(self).entries_spec() == old(self).entries_spec().push((key, value)),
    {
        if self.entries.len() == self.capacity {
            let _evicted = self.entries.remove(0);
        }
        self.entries.push((key, value));
    }

    pub fn len(&self) -> (length: usize)
        ensures
            length == self.entries_spec().len(),
    {
        self.entries.len()
    }
}

/// Inserting never grows the cache beyond its capacity, and once full, each
/// insertion evicts exactly the least recently used entry.
pub proof fn lemma_insert_evicts_least_recent<K, V>(
    entries: Seq<(K, V)>,
    capacity: nat,
    entry: (K, V),
)
    requires
        entries.len() == capacity,
        capacity > 0,
    ensures
        entries.drop_first().push(entry).len() == capacity,
        !entries.drop_first().push(entry).contains(entries[0]) || entries.drop_first().contains(
            entries[0],
        ) || entries[0] == entry,
        entries.drop_first().push(entry).last() == entry,
{
    let result = entries.drop_first().push(entry);
    if result.contains(entries[0]) {
        let i = choose|i: int| 0 <= i < result.len() && result[i] == entries[0];
        if i < result.len() - 1 {
            assert(entries.drop_first()[i] == entries[0]);
            assert(entries.drop_first().contains(entries[0]));
        }
    }
}

} // verus!
