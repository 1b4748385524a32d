//! The bounded cache of destinations known to need the upstream proxy.

use crate::address::{Key, SocketAddress};
use lru_cache::LruCache;
use std::collections::hash_map::RandomState;
use std::hash::{BuildHasher, Hash};
use vstd::prelude::*;

verus! {

/// `lru_cache::LruCache`, taken as it is: the verifier sees nothing inside it.
#[verifier::external_type_specification]
#[verifier::external_body]
#[verifier::reject_recursive_types(K)]
#[verifier::reject_recursive_types(V)]
#[verifier::reject_recursive_types(S)]
pub struct ExLruCache<K: Eq + Hash, V, S: BuildHasher = RandomState>(LruCache<K, V, S>);

/// The keys that an `LruCache` holds, as its `iter` yields them: from the least
/// recently used to the most recently used.
pub uninterp spec fn lru_keys(cache: LruCache<Key, bool>) -> Seq<Key>;

/// The number of entries that an `LruCache` was made to hold at most, as its
/// `capacity` reports it.
pub uninterp spec fn lru_capacity(cache: LruCache<Key, bool>) -> nat;

/// `keys` with `key` taken out, if it is there. The keys of a cache are
/// distinct, so that a key has one place.
pub open spec fn without(keys: Seq<Key>, key: Key) -> Seq<Key> {
    if keys.contains(key) {
        keys.remove(keys.index_of(key))
    } else {
        keys
    }
}

/// `keys` after a look-up of `key`: a key that is present becomes the most
/// recently used, and nothing else moves.
pub open spec fn refreshed(keys: Seq<Key>, key: Key) -> Seq<Key> {
    if keys.contains(key) {
        without(keys, key).push(key)
    } else {
        keys
    }
}

/// `keys` after `key` was put into a cache that holds at most `capacity`
/// entries: `key` becomes the most recently used, and where that makes one entry
/// too many the least recently used one leaves.
pub open spec fn inserted(keys: Seq<Key>, key: Key, capacity: nat) -> Seq<Key> {
    let with_key = without(keys, key).push(key);
    if with_key.len() > capacity {
        with_key.drop_first()
    } else {
        with_key
    }
}

/// `LruCache::new`: an empty cache with the given capacity.
#[verifier::external_body]
fn lru_new(capacity: usize) -> (cache: LruCache<Key, bool>)
    ensures
        lru_keys(cache) == Seq::<Key>::empty(),
        lru_capacity(cache) == capacity,
{
    LruCache::new(capacity)
}

/// `LruCache::contains_key`: tells whether the key is present. The look-up
/// counts as a use, so a key that is present moves to the most recently used
/// end; the capacity stays. With keys that are tuples of integers, whose
/// hashing and comparing cannot panic, the call does not unwind.
#[verifier::external_body]
fn lru_contains_key(cache: &mut LruCache<Key, bool>, key: &Key) -> (present: bool)
    ensures
        present == lru_keys(*old(cache)).contains(*key),
        lru_keys(*final(cache)) == refreshed(lru_keys(*old(cache)), *key),
        lru_capacity(*final(cache)) == lru_capacity(*old(cache)),
    no_unwind
{
    cache.contains_key(key)
}

/// `LruCache::insert`: puts the key in as the most recently used entry, whether
/// or not it was present, and then drops the least recently used entry if the
/// cache holds more than its capacity; the capacity stays. Returns the value
/// that the key had before, if it was present. With keys that are tuples of
/// integers, whose hashing and comparing cannot panic, the call does not
/// unwind.
#[verifier::external_body]
fn lru_insert(cache: &mut LruCache<Key, bool>, key: Key, value: bool) -> (previous: Option<bool>)
    ensures
        previous.is_some() == lru_keys(*old(cache)).contains(key),
        lru_keys(*final(cache)) == inserted(
            lru_keys(*old(cache)),
            key,
            lru_capacity(*old(cache)),
        ),
        lru_capacity(*final(cache)) == lru_capacity(*old(cache)),
    no_unwind
{
    cache.insert(key, value)
}

/// The index in the old order of the key that stands at `i` after the entry at
/// `at` has moved to the most recently used end.
spec fn came_from(len: int, at: int, i: int) -> int {
    if i == len - 1 {
        at
    } else if i < at {
        i
    } else {
        i + 1
    }
}

/// Moving one entry to the most recently used end keeps the others in their
/// order, and keeps the keys distinct.
proof fn lemma_moved_to_end(keys: Seq<Key>, at: int)
    requires
        keys.no_duplicates(),
        0 <= at < keys.len(),
    ensures
        keys.remove(at).push(keys[at]).len() == keys.len(),
        keys.remove(at).push(keys[at]).no_duplicates(),
        keys.remove(at).push(keys[at]).last() == keys[at],
        forall|i: int|
            0 <= i < keys.len() ==> #[trigger] keys.remove(at).push(keys[at])[i] == keys[came_from(
                keys.len() as int,
                at,
                i,
            )],
        forall|k: Key| #[trigger] keys.remove(at).push(keys[at]).contains(k) <==> keys.contains(k),
{
    let len = keys.len() as int;
    let after = keys.remove(at).push(keys[at]);
    assert forall|i: int| 0 <= i < len implies #[trigger] after[i] == keys[came_from(
        len,
        at,
        i,
    )] by {}
    assert forall|i: int, j: int| 0 <= i < len && 0 <= j < len && i != j implies after[i]
        != after[j] by {
        assert(after[i] == keys[came_from(len, at, i)]);
        assert(after[j] == keys[came_from(len, at, j)]);
        assert(came_from(len, at, i) != came_from(len, at, j));
    }
    assert forall|k: Key| #[trigger] after.contains(k) <==> keys.contains(k) by {
        if after.contains(k) {
            let i = choose|i: int| 0 <= i < after.len() && after[i] == k;
            assert(keys[came_from(len, at, i)] == k);
        }
        if keys.contains(k) {
            let i = choose|i: int| 0 <= i < keys.len() && keys[i] == k;
            let to = if i == at {
                len - 1
            } else if i < at {
                i
            } else {
                i - 1
            };
            assert(came_from(len, at, to) == i);
            assert(after[to] == k);
        }
    }
}

/// A look-up keeps the keys distinct, moves none out and none in, and leaves
/// the looked-up key, if present, as the most recently used.
pub proof fn lemma_refreshed(keys: Seq<Key>, key: Key)
    requires
        keys.no_duplicates(),
    ensures
        refreshed(keys, key).no_duplicates(),
        refreshed(keys, key).len() == keys.len(),
        forall|k: Key| #[trigger] refreshed(keys, key).contains(k) <==> keys.contains(k),
        keys.contains(key) ==> refreshed(keys, key).last() == key,
{
    if keys.contains(key) {
        lemma_moved_to_end(keys, keys.index_of(key));
    }
}

/// Putting a key in keeps the keys distinct and within the capacity.
pub proof fn lemma_inserted(keys: Seq<Key>, key: Key, capacity: nat)
    requires
        keys.no_duplicates(),
        keys.len() <= capacity,
    ensures
        inserted(keys, key, capacity).no_duplicates(),
        inserted(keys, key, capacity).len() <= capacity,
{
    let with_key = without(keys, key).push(key);
    if keys.contains(key) {
        lemma_refreshed(keys, key);
        assert(with_key == refreshed(keys, key));
    } else {
        assert forall|i: int, j: int|
            0 <= i < with_key.len() && 0 <= j < with_key.len() && i != j implies with_key[i]
            != with_key[j] by {
            if i < keys.len() {
                assert(keys.contains(with_key[i]));
            }
            if j < keys.len() {
                assert(keys.contains(with_key[j]));
            }
        }
    }
    let after = inserted(keys, key, capacity);
    if with_key.len() > capacity {
        assert forall|i: int, j: int|
            0 <= i < after.len() && 0 <= j < after.len() && i != j implies after[i] != after[j] by {
            assert(after[i] == with_key[i + 1]);
            assert(after[j] == with_key[j + 1]);
        }
    }
}

/// A key that is put into a cache with room for at least one entry is held
/// afterwards, as the most recently used.
pub proof fn lemma_inserted_is_held(keys: Seq<Key>, key: Key, capacity: nat)
    requires
        keys.no_duplicates(),
        keys.len() <= capacity,
        capacity > 0,
    ensures
        inserted(keys, key, capacity).contains(key),
        inserted(keys, key, capacity).last() == key,
{
    let after = inserted(keys, key, capacity);
    if keys.contains(key) {
        lemma_refreshed(keys, key);
    }
    assert(after[after.len() - 1] == key);
}

/// While there is room, putting in a key that is not held forgets nothing: the
/// keys held before stay in their order, and the new one follows them.
pub proof fn lemma_room_left(keys: Seq<Key>, key: Key, capacity: nat)
    requires
        keys.len() < capacity,
        !keys.contains(key),
    ensures
        inserted(keys, key, capacity) == keys.push(key),
{
}

/// Putting a key that is not held into a full cache forgets the least recently
/// used key and no other.
pub proof fn lemma_full_cache_forgets_oldest(keys: Seq<Key>, key: Key, capacity: nat)
    requires
        keys.no_duplicates(),
        keys.len() == capacity,
        capacity > 0,
        !keys.contains(key),
    ensures
        inserted(keys, key, capacity) == keys.drop_first().push(key),
        !inserted(keys, key, capacity).contains(keys.first()),
        forall|k: Key|
            keys.contains(k) && k != keys.first() ==> #[trigger] inserted(
                keys,
                key,
                capacity,
            ).contains(k),
{
    let after = inserted(keys, key, capacity);
    assert(after == keys.drop_first().push(key));
    if after.contains(keys.first()) {
        let i = choose|i: int| 0 <= i < after.len() && after[i] == keys.first();
        if i < after.len() - 1 {
            assert(after[i] == keys[i + 1]);
        }
        assert(keys.contains(keys[0]));
    }
    assert forall|k: Key| keys.contains(k) && k != keys.first() implies #[trigger] after.contains(
        k,
    ) by {
        let i = choose|i: int| 0 <= i < keys.len() && keys[i] == k;
        assert(after[i - 1] == k);
    }
}

/// The number of keys that were used more recently than `key`, which is held.
pub open spec fn newer_than(keys: Seq<Key>, key: Key) -> int
    recommends
        keys.contains(key),
{
    keys.len() - 1 - keys.index_of(key)
}

/// `keys` after each of `others` was put in, in their order.
pub open spec fn inserted_all(keys: Seq<Key>, others: Seq<Key>, capacity: nat) -> Seq<Key>
    decreases others.len(),
{
    if others.len() == 0 {
        keys
    } else {
        inserted(inserted_all(keys, others.drop_last(), capacity), others.last(), capacity)
    }
}

/// Among distinct keys, a key stands at one place only.
proof fn lemma_place_is_unique(keys: Seq<Key>, key: Key, at: int)
    requires
        keys.no_duplicates(),
        0 <= at < keys.len(),
        keys[at] == key,
    ensures
        keys.contains(key),
        keys.index_of(key) == at,
{
}

/// Putting another key in lets at most one more key be newer than a key that
/// is held, and forgets that key only if as many keys are newer than it as the
/// cache has room for besides it.
pub proof fn lemma_inserted_ages_by_one(keys: Seq<Key>, key: Key, other: Key, capacity: nat)
    requires
        keys.no_duplicates(),
        keys.len() <= capacity,
        keys.contains(key),
        other != key,
        newer_than(keys, key) + 1 < capacity,
    ensures
        inserted(keys, other, capacity).contains(key),
        newer_than(inserted(keys, other, capacity), key) <= newer_than(keys, key) + 1,
{
    let after = inserted(keys, other, capacity);
    let at = keys.index_of(key);
    lemma_inserted(keys, other, capacity);
    if keys.contains(other) {
        let gone = keys.index_of(other);
        let to = if at < gone {
            at
        } else {
            at - 1
        };
        assert(keys.remove(gone).push(other)[to] == key);
        lemma_place_is_unique(after, key, to);
    } else if keys.len() + 1 > capacity {
        assert(keys.push(other).drop_first()[at - 1] == key);
        lemma_place_is_unique(after, key, at - 1);
    } else {
        assert(keys.push(other)[at] == key);
        lemma_place_is_unique(after, key, at);
    }
}

/// Least recently used goes first: a key that is held outlasts the putting in
/// of other keys, as long as they and the keys that are newer than it are fewer
/// than the capacity.
pub proof fn lemma_recently_used_is_kept(
    keys: Seq<Key>,
    key: Key,
    others: Seq<Key>,
    capacity: nat,
)
    requires
        keys.no_duplicates(),
        keys.len() <= capacity,
        keys.contains(key),
        forall|i: int| 0 <= i < others.len() ==> others[i] != key,
        newer_than(keys, key) + others.len() < capacity,
    ensures
        inserted_all(keys, others, capacity).contains(key),
        inserted_all(keys, others, capacity).no_duplicates(),
        inserted_all(keys, others, capacity).len() <= capacity,
        newer_than(inserted_all(keys, others, capacity), key) <= newer_than(keys, key)
            + others.len(),
    decreases others.len(),
{
    if others.len() > 0 {
        let earlier = others.drop_last();
        assert forall|i: int| 0 <= i < earlier.len() implies earlier[i] != key by {
            assert(earlier[i] == others[i]);
        }
        lemma_recently_used_is_kept(keys, key, earlier, capacity);
        let before = inserted_all(keys, earlier, capacity);
        assert(others[others.len() - 1] != key);
        lemma_inserted_ages_by_one(before, key, others.last(), capacity);
        lemma_inserted(before, others.last(), capacity);
    }
}

/// A key that is held and marked again is not the next to be forgotten: in a
/// cache with room for two or more, it is still held after any other key was
/// put in.
pub proof fn lemma_remarked_is_kept(keys: Seq<Key>, key: Key, newcomer: Key, capacity: nat)
    requires
        keys.no_duplicates(),
        keys.len() <= capacity,
        capacity >= 2,
        keys.contains(key),
        newcomer != key,
    ensures
        inserted(inserted(keys, key, capacity), newcomer, capacity).contains(key),
{
    let marked = inserted(keys, key, capacity);
    lemma_inserted(keys, key, capacity);
    lemma_inserted_is_held(keys, key, capacity);
    lemma_place_is_unique(marked, key, marked.len() - 1);
    lemma_inserted_ages_by_one(marked, key, newcomer, capacity);
}

/// The same of a key that was looked up: in a cache with room for two or more,
/// it is still held after any other key was put in.
pub proof fn lemma_looked_up_is_kept(keys: Seq<Key>, key: Key, newcomer: Key, capacity: nat)
    requires
        keys.no_duplicates(),
        keys.len() <= capacity,
        capacity >= 2,
        keys.contains(key),
        newcomer != key,
    ensures
        inserted(refreshed(keys, key), newcomer, capacity).contains(key),
{
    let used = refreshed(keys, key);
    lemma_refreshed(keys, key);
    lemma_place_is_unique(used, key, used.len() - 1);
    lemma_inserted_ages_by_one(used, key, newcomer, capacity);
}

/// Marking is idempotent: putting a key in a second time, right after the
/// first, changes nothing.
pub proof fn lemma_inserted_twice(keys: Seq<Key>, key: Key, capacity: nat)
    requires
        keys.no_duplicates(),
        keys.len() <= capacity,
    ensures
        inserted(inserted(keys, key, capacity), key, capacity) == inserted(keys, key, capacity),
{
    let once = inserted(keys, key, capacity);
    lemma_inserted(keys, key, capacity);
    if capacity > 0 {
        lemma_inserted_is_held(keys, key, capacity);
        let last = once.len() - 1;
        assert(once.index_of(key) == last);
        assert(once.remove(last).push(key) == once);
    }
}

/// The destinations known to need the upstream proxy: a cache of bounded size
/// that, when full, forgets the destination that was used least recently. A
/// look-up and a mark both count as a use.
pub struct DestinationCache {
    entries: LruCache<Key, bool>,
}

impl DestinationCache {
    /// The keys of the destinations held, from the least recently used to the
    /// most recently used.
    pub closed spec fn view(&self) -> Seq<Key> {
        lru_keys(self.entries)
    }

    /// The number of destinations that the cache holds at most.
    pub closed spec fn spec_capacity(&self) -> nat {
        lru_capacity(self.entries)
    }

    /// No destination is held twice, and no more are held than the capacity.
    #[verifier::type_invariant]
    pub open spec fn well_formed(&self) -> bool {
        self@.no_duplicates() && self@.len() <= self.spec_capacity()
    }

    /// Whether the destination is held.
    pub open spec fn holds(&self, addr: SocketAddress) -> bool {
        self@.contains(addr.key())
    }

    /// An empty cache that holds at most `capacity` destinations.
    pub fn new(capacity: usize) -> (cache: Self)
        ensures
            cache@ == Seq::<Key>::empty(),
            cache.spec_capacity() == capacity,
            cache.well_formed(),
    {
        DestinationCache { entries: lru_new(capacity) }
    }

    /// Tells whether the destination is held. Being asked for counts as a use: a
    /// destination that is held becomes the most recently used.
    pub fn contains(&mut self, addr: &SocketAddress) -> (present: bool)
        ensures
            present == old(self).holds(*addr),
            final(self)@ == refreshed(old(self)@, addr.key()),
            final(self).spec_capacity() == old(self).spec_capacity(),
            final(self).well_formed(),
        no_unwind
    {
        proof {
            use_type_invariant(&*self);
            lemma_refreshed(self@, addr.key());
        }
        let key = addr.key();
        lru_contains_key(&mut self.entries, &key)
    }

    /// Marks the destination as one that needs the proxy. It becomes the most
    /// recently used; if the cache then holds more than its capacity, the least
    /// recently used destination is forgotten. Marking twice in a row is the
    /// same as marking once.
    pub fn mark(&mut self, addr: &SocketAddress)
        ensures
            final(self)@ == inserted(old(self)@, addr.key(), old(self).spec_capacity()),
            final(self).spec_capacity() == old(self).spec_capacity(),
            final(self).well_formed(),
            final(self).holds(*addr) <==> old(self).spec_capacity() > 0,
        no_unwind
    {
        proof {
            use_type_invariant(&*self);
            lemma_inserted(self@, addr.key(), self.spec_capacity());
            if self.spec_capacity() > 0 {
                lemma_inserted_is_held(self@, addr.key(), self.spec_capacity());
            }
        }
        let _ = lru_insert(&mut self.entries, addr.key(), true);
    }
}

} // verus!
