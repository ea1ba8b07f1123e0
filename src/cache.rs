//! A session cache, and the law that makes lookups through it
//! idempotent.
//!
//! A lookup first asks the cache; only on a miss does the caller make the
//! external call, and it then stores what came back, a recorded absence
//! included. Nothing is ever removed within a session.
use vstd::prelude::*;

verus! {

/// A key that can be told apart from another by value.
pub trait CacheKey: View + Sized {
    fn same_key(&self, other: &Self) -> (r: bool)
        ensures
            r == (self@ == other@);

    fn copy_key(&self) -> (r: Self)
        ensures
            r@ == self@;
}

impl CacheKey for String {
    fn same_key(&self, other: &String) -> (r: bool) {
        *self == *other
    }

    fn copy_key(&self) -> (r: String) {
        self.clone()
    }
}

/// The map that a list of stored entries describes: later entries win.
pub open spec fn entries_map<K, V>(entries: Seq<(K, V)>) -> Map<K, V>
    decreases entries.len(),
{
    if entries.len() == 0 {
        Map::empty()
    } else {
        entries_map(entries.drop_last()).insert(entries.last().0, entries.last().1)
    }
}

/// Values stored under a key, in the order they were stored.
pub struct Cache<K, V> {
    entries: Vec<(K, V)>,
}

impl<K: CacheKey, V> View for Cache<K, V> {
    type V = Map<K::V, V>;

    closed spec fn view(&self) -> Map<K::V, V> {
        entries_map(self.entries@.map_values(|e: (K, V)| (e.0@, e.1)))
    }
}

impl<K: CacheKey, V> Cache<K, V> {
    /// An empty cache.
    pub fn new() -> (r: Cache<K, V>)
        ensures
            r@ == Map::<K::V, V>::empty(),
    {
        let r = Cache { entries: Vec::new() };
        assert(r.entries@.map_values(|e: (K, V)| (e.0@, e.1)).len() == 0);
        r
    }

    /// Whether something, a recorded absence included, is stored for `key`.
    pub fn contains(&self, key: &K) -> (r: bool)
        ensures
            r == self@.contains_key(key@),
    {
        self.get(key).is_some()
    }

    /// What is stored for `key`.
    pub fn get(&self, key: &K) -> (r: Option<&V>)
        ensures
            r.is_some() == self@.contains_key(key@),
            r matches Some(v) ==> *v == self@[key@],
    {
        let ghost es = self.entries@.map_values(|e: (K, V)| (e.0@, e.1));
        let mut i: usize = self.entries.len();
        assert(es.subrange(0, i as int) =~= es);
        while i > 0
            invariant
                i <= self.entries@.len(),
                es == self.entries@.map_values(|e: (K, V)| (e.0@, e.1)),
                self@.contains_key(key@) == entries_map(es.subrange(0, i as int)).contains_key(
                    key@,
                ),
                self@.contains_key(key@) ==> self@[key@] == entries_map(
                    es.subrange(0, i as int),
                )[key@],
            decreases i,
        {
            assert(es.subrange(0, i as int).drop_last() == es.subrange(0, i - 1));
            let e = &self.entries[i - 1];
            if e.0.same_key(key) {
                return Some(&e.1);
            }
            i = i - 1;
        }
        None
    }

    /// Stores `value` for a key that has nothing stored yet.
    pub fn insert(&mut self, key: K, value: V)
        requires
            !old(self)@.contains_key(key@),
        ensures
            final(self)@ == old(self)@.insert(key@, value),
    {
        let ghost before = self.entries@;
        let ghost k = key@;
        self.entries.push((key, value));
        assert(self.entries@.map_values(|e: (K, V)| (e.0@, e.1)).drop_last()
            =~= before.map_values(|e: (K, V)| (e.0@, e.1)));
    }
}

/// The cache after one lookup of `key`: unchanged on a hit, and on a miss
/// holding what the external call returned.
pub open spec fn after_lookup<K, V>(cache: Map<K, V>, key: K, fetched: V) -> Map<
    K,
    V,
> {
    if cache.contains_key(key) {
        cache
    } else {
        cache.insert(key, fetched)
    }
}

/// What one lookup of `key` answers.
pub open spec fn lookup_result<K, V>(cache: Map<K, V>, key: K, fetched: V) -> V {
    if cache.contains_key(key) {
        cache[key]
    } else {
        fetched
    }
}

/// How many external calls one lookup of `key` makes.
pub open spec fn lookup_calls<K, V>(cache: Map<K, V>, key: K) -> nat {
    if cache.contains_key(key) {
        0
    } else {
        1
    }
}

/// Two consecutive lookups of one key make at most one external call between
/// them, and the second answers what the first did, whatever either call
/// would return (a failure that was recorded as an absence included).
pub proof fn lookup_twice_is_idempotent<K, V>(
    cache: Map<K, V>,
    key: K,
    first_fetch: V,
    second_fetch: V,
)
    ensures
        lookup_calls(cache, key) + lookup_calls(after_lookup(cache, key, first_fetch), key) <= 1,
        lookup_result(after_lookup(cache, key, first_fetch), key, second_fetch) == lookup_result(
            cache,
            key,
            first_fetch,
        ),
        after_lookup(after_lookup(cache, key, first_fetch), key, second_fetch) == after_lookup(
            cache,
            key,
            first_fetch,
        ),
{
}

} // verus!
