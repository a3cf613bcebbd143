//! A least-recently-used cache of prepared statements, keyed by SQL text.
//! The cache holds the identifier of each prepared statement.

use vstd::prelude::*;
use hashlink::lru_cache::LruCache;
use crate::text::{chars_of, string_from_chars};

verus! {

/// The least-recently-used cache of the `hashlink` crate.
#[verifier::external_type_specification]
#[verifier::external_body]
#[verifier::reject_recursive_types(K)]
#[verifier::reject_recursive_types(V)]
#[verifier::reject_recursive_types(S)]
pub struct ExLruCache<K, V, S>(LruCache<K, V, S>);

/// The default hasher builder of the `hashlink` crate.
#[verifier::external_type_specification]
#[verifier::external_body]
pub struct ExDefaultHashBuilder(hashlink::DefaultHashBuilder);

/// The entries of a cache, least recently used first.
pub uninterp spec fn lru_entries(c: LruCache<String, u64>) -> Seq<(Seq<char>, u64)>;

/// The capacity a cache was made with.
pub uninterp spec fn lru_capacity(c: LruCache<String, u64>) -> nat;

/// The keys of cache entries.
pub open spec fn entry_keys(e: Seq<(Seq<char>, u64)>) -> Seq<Seq<char>> {
    e.map_values(|p: (Seq<char>, u64)| p.0)
}

/// The position of `k` among the entries, if present.
pub open spec fn key_index(e: Seq<(Seq<char>, u64)>, k: Seq<char>) -> Option<int> {
    if entry_keys(e).contains(k) {
        Some(choose|i: int| 0 <= i < e.len() && e[i].0 == k)
    } else {
        None
    }
}

/// `LruCache::new`: an empty cache of the given capacity.
#[verifier::external_body]
fn lru_new(capacity: usize) -> (r: LruCache<String, u64>)
    ensures
        lru_entries(r) == Seq::<(Seq<char>, u64)>::empty(),
        lru_capacity(r) == capacity,
{
    LruCache::new(capacity)
}

/// `LruCache::len`: the number of entries.
#[verifier::external_body]
fn lru_len(c: &LruCache<String, u64>) -> (r: usize)
    ensures
        r == lru_entries(*c).len(),
{
    c.len()
}

/// `LruCache::capacity`: the capacity it was made with.
#[verifier::external_body]
fn lru_capacity_of(c: &LruCache<String, u64>) -> (r: usize)
    ensures
        r == lru_capacity(*c),
{
    c.capacity()
}

/// `LruCache::contains_key`: whether an entry has key `k`; the order is kept.
#[verifier::external_body]
fn lru_contains(c: &LruCache<String, u64>, k: &str) -> (r: bool)
    ensures
        r == entry_keys(lru_entries(*c)).contains(k@),
{
    c.contains_key(k)
}

/// `LruCache::insert` on a key not present: the entry is appended as most
/// recently used, then, when that exceeds the capacity, the least recently
/// used entry is dropped. Nothing is returned.
#[verifier::external_body]
fn lru_insert_new(c: &mut LruCache<String, u64>, k: String, v: u64)
    requires
        !entry_keys(lru_entries(*old(c))).contains(k@),
    ensures
        lru_capacity(*final(c)) == lru_capacity(*old(c)),
        lru_entries(*final(c)) == if lru_entries(*old(c)).len() + 1 > lru_capacity(*old(c)) {
            lru_entries(*old(c)).push((k@, v)).drop_first()
        } else {
            lru_entries(*old(c)).push((k@, v))
        },
{
    c.insert(k, v);
}

/// `LruCache::get_mut`: the value of key `k`, whose entry becomes the most
/// recently used; `None`, with nothing changed, when absent.
#[verifier::external_body]
fn lru_get_mut(c: &mut LruCache<String, u64>, k: &str) -> (r: Option<u64>)
    requires
        entry_keys(lru_entries(*old(c))).no_duplicates(),
    ensures
        lru_capacity(*final(c)) == lru_capacity(*old(c)),
        match key_index(lru_entries(*old(c)), k@) {
            Some(i) => r == Some(lru_entries(*old(c))[i].1) && lru_entries(*final(c))
                == lru_entries(*old(c)).remove(i).push(lru_entries(*old(c))[i]),
            None => r is None && lru_entries(*final(c)) == lru_entries(*old(c)),
        },
{
    c.get_mut(k).map(|v| *v)
}

/// `LruCache::remove`: the value of key `k`, its entry removed; `None`, with
/// nothing changed, when absent.
#[verifier::external_body]
fn lru_remove(c: &mut LruCache<String, u64>, k: &str) -> (r: Option<u64>)
    requires
        entry_keys(lru_entries(*old(c))).no_duplicates(),
    ensures
        lru_capacity(*final(c)) == lru_capacity(*old(c)),
        match key_index(lru_entries(*old(c)), k@) {
            Some(i) => r == Some(lru_entries(*old(c))[i].1) && lru_entries(*final(c))
                == lru_entries(*old(c)).remove(i),
            None => r is None && lru_entries(*final(c)) == lru_entries(*old(c)),
        },
{
    c.remove(k)
}

/// `LruCache::remove_lru`: the least recently used entry's value, the entry
/// removed; `None` when empty.
#[verifier::external_body]
fn lru_remove_lru(c: &mut LruCache<String, u64>) -> (r: Option<u64>)
    ensures
        lru_capacity(*final(c)) == lru_capacity(*old(c)),
        lru_entries(*old(c)).len() == 0 ==> r is None && lru_entries(*final(c)) == lru_entries(
            *old(c),
        ),
        lru_entries(*old(c)).len() > 0 ==> r == Some(lru_entries(*old(c))[0].1) && lru_entries(
            *final(c),
        ) == lru_entries(*old(c)).drop_first(),
{
    c.remove_lru().map(|(_, v)| v)
}

/// `LruCache::clear`: no entries.
#[verifier::external_body]
fn lru_clear(c: &mut LruCache<String, u64>)
    ensures
        lru_capacity(*final(c)) == lru_capacity(*old(c)),
        lru_entries(*final(c)) == Seq::<(Seq<char>, u64)>::empty(),
{
    c.clear()
}

/// The default capacity of a statement cache.
pub const DEFAULT_CAPACITY: usize = 1024;

/// A cache of prepared statements. When full, the least recently used
/// statement gets removed.
#[derive(Debug)]
pub struct StatementCache {
    /// SQL text to statement identifier, least recently used first.
    pub inner: LruCache<String, u64>,
}

/// The entries after inserting `(k, v)` into a cache of capacity `cap`, and
/// the statement that made room: the replaced one when `k` was present,
/// else the least recently used one when the cache was full.
pub open spec fn insert_spec(e: Seq<(Seq<char>, u64)>, cap: nat, k: Seq<char>, v: u64) -> (
    Seq<(Seq<char>, u64)>,
    Option<u64>,
) {
    match key_index(e, k) {
        Some(i) => (e.remove(i).push((k, v)), Some(e[i].1)),
        None => if e.len() == cap {
            if e.len() == 0 {
                (seq![], None)
            } else {
                (e.drop_first().push((k, v)), Some(e[0].1))
            }
        } else {
            (e.push((k, v)), None)
        },
    }
}

/// The value of `k` among the entries.
pub open spec fn lookup_spec(e: Seq<(Seq<char>, u64)>, k: Seq<char>) -> Option<u64> {
    match key_index(e, k) {
        Some(i) => Some(e[i].1),
        None => None,
    }
}

impl StatementCache {
    /// The entries, least recently used first.
    pub open spec fn entries(&self) -> Seq<(Seq<char>, u64)> {
        lru_entries(self.inner)
    }

    /// The capacity.
    pub open spec fn cap(&self) -> nat {
        lru_capacity(self.inner)
    }

    /// Keys are distinct and there are no more entries than the capacity.
    pub open spec fn wf(&self) -> bool {
        &&& entry_keys(self.entries()).no_duplicates()
        &&& self.entries().len() <= self.cap()
    }

    /// Create a new cache with the given `capacity`.
    pub fn new(capacity: usize) -> (r: StatementCache)
        ensures
            r.wf(),
            r.entries().len() == 0,
            r.cap() == capacity,
    {
        StatementCache { inner: lru_new(capacity) }
    }

    /// The statement cached for `k`, marked as most recently used.
    pub fn get_mut(&mut self, k: &str) -> (r: Option<u64>)
        requires
            old(self).wf(),
        ensures
            final(self).wf(),
            final(self).cap() == old(self).cap(),
            r == lookup_spec(old(self).entries(), k@),
            match key_index(old(self).entries(), k@) {
                Some(i) => final(self).entries() == old(self).entries().remove(i).push(
                    old(self).entries()[i],
                ),
                None => final(self).entries() == old(self).entries(),
            },
    {
        let r = lru_get_mut(&mut self.inner, k);
        proof {
            lemma_move_to_back_keeps_keys_distinct(old(self).entries(), k@);
        }
        r
    }

    /// Insert a statement for `k`, returning the statement it displaced: the
    /// least recently used one if the cache was full, or the one previously
    /// cached for `k`.
    pub fn insert(&mut self, k: &str, v: u64) -> (r: Option<u64>)
        requires
            old(self).wf(),
        ensures
            final(self).wf(),
            final(self).cap() == old(self).cap(),
            (final(self).entries(), r) == insert_spec(old(self).entries(), old(self).cap(), k@, v),
    {
        let ghost e = self.entries();
        let mut lru_item: Option<u64> = None;
        if self.capacity() == self.len() && !self.contains_key(k) {
            lru_item = self.remove_lru();
        } else if self.contains_key(k) {
            lru_item = lru_remove(&mut self.inner, k);
        }
        proof {
            lemma_remove_keeps_keys_distinct(e, k@);
            lemma_drop_first_keys(e, k@);
        }
        let chars = chars_of(k);
        let ghost mid = self.entries();
        lru_insert_new(&mut self.inner, string_from_chars(&chars), v);
        proof {
            lemma_insert_keys_distinct(e, self.cap(), k@, v);
            if key_index(e, k@) is None && e.len() == self.cap() && e.len() == 0 {
                assert(mid.push((k@, v)).drop_first() =~= Seq::<(Seq<char>, u64)>::empty());
            }
        }
        lru_item
    }

    /// The statement to run for `query`. On a hit it is the cached one, now
    /// the most recently used, and the caller resets it before running it
    /// again (the flag is `true`). On a miss `fresh`, the statement just
    /// prepared for `query`, is cached as [`insert`](Self::insert) caches it,
    /// and is the one to run; the statement that made room for it, if any,
    /// is returned for the caller to finalize.
    pub fn get(&mut self, query: &str, fresh: u64) -> (r: (u64, bool, Option<u64>))
        requires
            old(self).wf(),
            old(self).cap() > 0,
        ensures
            final(self).wf(),
            final(self).cap() == old(self).cap(),
            match key_index(old(self).entries(), query@) {
                Some(i) => r == (old(self).entries()[i].1, true, None::<u64>) && final(self).entries()
                    == old(self).entries().remove(i).push(old(self).entries()[i]),
                None => r == (fresh, false, insert_spec(
                    old(self).entries(),
                    old(self).cap(),
                    query@,
                    fresh,
                ).1) && final(self).entries() == insert_spec(
                    old(self).entries(),
                    old(self).cap(),
                    query@,
                    fresh,
                ).0,
            },
    {
        if self.contains_key(query) {
            let found = self.get_mut(query);
            (found.unwrap(), true, None)
        } else {
            let evicted = self.insert(query, fresh);
            (fresh, false, evicted)
        }
    }

    /// The number of statements in the cache.
    pub fn len(&self) -> (r: usize)
        ensures
            r == self.entries().len(),
    {
        lru_len(&self.inner)
    }

    /// Removes the least recently used statement from the cache.
    pub fn remove_lru(&mut self) -> (r: Option<u64>)
        requires
            old(self).wf(),
        ensures
            final(self).wf(),
            final(self).cap() == old(self).cap(),
            old(self).entries().len() == 0 ==> r is None && final(self).entries()
                == old(self).entries(),
            old(self).entries().len() > 0 ==> r == Some(old(self).entries()[0].1)
                && final(self).entries() == old(self).entries().drop_first(),
    {
        let r = lru_remove_lru(&mut self.inner);
        proof {
            let e = old(self).entries();
            if e.len() > 0 {
                assert(entry_keys(e.drop_first()) =~= entry_keys(e).drop_first());
            }
        }
        r
    }

    /// Clear all cached statements.
    pub fn clear(&mut self)
        requires
            old(self).wf(),
        ensures
            final(self).wf(),
            final(self).cap() == old(self).cap(),
            final(self).entries().len() == 0,
    {
        lru_clear(&mut self.inner);
        assert(entry_keys(self.entries()) =~= Seq::<Seq<char>>::empty());
    }

    /// True if the cache has a statement for `k`.
    pub fn contains_key(&mut self, k: &str) -> (r: bool)
        ensures
            r == entry_keys(old(self).entries()).contains(k@),
            *final(self) == *old(self),
    {
        lru_contains(&self.inner, k)
    }

    /// The maximum number of statements the cache can hold.
    pub fn capacity(&self) -> (r: usize)
        ensures
            r == self.cap(),
    {
        lru_capacity_of(&self.inner)
    }
}

/// Distinct keys stay distinct when one entry is moved to the back.
proof fn lemma_move_to_back_keeps_keys_distinct(e: Seq<(Seq<char>, u64)>, k: Seq<char>)
    requires
        entry_keys(e).no_duplicates(),
    ensures
        key_index(e, k) matches Some(i) ==> entry_keys(e.remove(i).push(e[i])).no_duplicates(),
{
    if let Some(i) = key_index(e, k) {
        let f = e.remove(i).push(e[i]);
        assert forall|a: int, b: int| 0 <= a < f.len() && 0 <= b < f.len() && a != b implies
            entry_keys(f)[a] != entry_keys(f)[b] by {
            let ia = if a == f.len() - 1 { i } else if a < i { a } else { a + 1 };
            let ib = if b == f.len() - 1 { i } else if b < i { b } else { b + 1 };
            assert(entry_keys(f)[a] == entry_keys(e)[ia]);
            assert(entry_keys(f)[b] == entry_keys(e)[ib]);
        }
    }
}

/// Distinct keys stay distinct when an entry is removed.
proof fn lemma_remove_keeps_keys_distinct(e: Seq<(Seq<char>, u64)>, k: Seq<char>)
    requires
        entry_keys(e).no_duplicates(),
    ensures
        key_index(e, k) matches Some(i) ==> entry_keys(e.remove(i)).no_duplicates()
            && !entry_keys(e.remove(i)).contains(k),
        e.len() > 0 ==> entry_keys(e.drop_first()).no_duplicates() && (e[0].0 == k
            ==> !entry_keys(e.drop_first()).contains(k)),
{
    if let Some(i) = key_index(e, k) {
        let f = e.remove(i);
        assert forall|a: int, b: int| 0 <= a < f.len() && 0 <= b < f.len() && a != b implies
            entry_keys(f)[a] != entry_keys(f)[b] by {
            let ia = if a < i { a } else { a + 1 };
            let ib = if b < i { b } else { b + 1 };
            assert(entry_keys(f)[a] == entry_keys(e)[ia]);
            assert(entry_keys(f)[b] == entry_keys(e)[ib]);
        }
        if entry_keys(f).contains(k) {
            let j = choose|j: int| 0 <= j < entry_keys(f).len() && entry_keys(f)[j] == k;
            let ij = if j < i { j } else { j + 1 };
            assert(entry_keys(e)[ij] == k);
            assert(entry_keys(e)[i] == k);
        }
    }
    if e.len() > 0 {
        assert(entry_keys(e.drop_first()) =~= entry_keys(e).drop_first());
        if e[0].0 == k && entry_keys(e.drop_first()).contains(k) {
            let j = choose|j: int| 0 <= j < entry_keys(e.drop_first()).len() && entry_keys(e.drop_first())[j] == k;
            assert(entry_keys(e)[j + 1] == k);
            assert(entry_keys(e)[0] == k);
        }
    }
}

/// Dropping the first entry drops no other key.
proof fn lemma_drop_first_keys(e: Seq<(Seq<char>, u64)>, k: Seq<char>)
    ensures
        e.len() > 0 && entry_keys(e.drop_first()).contains(k) ==> entry_keys(e).contains(k),
{
    if e.len() > 0 && entry_keys(e.drop_first()).contains(k) {
        let j = choose|j: int| 0 <= j < entry_keys(e.drop_first()).len() && entry_keys(e.drop_first())[j] == k;
        assert(entry_keys(e)[j + 1] == k);
    }
}

/// Inserting keeps keys distinct and the size within the capacity.
proof fn lemma_insert_keys_distinct(e: Seq<(Seq<char>, u64)>, cap: nat, k: Seq<char>, v: u64)
    requires
        entry_keys(e).no_duplicates(),
        e.len() <= cap,
    ensures
        entry_keys(insert_spec(e, cap, k, v).0).no_duplicates(),
        insert_spec(e, cap, k, v).0.len() <= cap,
{
    lemma_remove_keeps_keys_distinct(e, k);
    let f = insert_spec(e, cap, k, v).0;
    let base: Seq<(Seq<char>, u64)> = match key_index(e, k) {
        Some(i) => e.remove(i),
        None => if e.len() == cap && e.len() > 0 {
            e.drop_first()
        } else {
            e
        },
    };
    if !(key_index(e, k) is None && e.len() == cap && e.len() == 0) {
        assert(f == base.push((k, v)));
        assert(!entry_keys(base).contains(k)) by {
            if key_index(e, k) is None && entry_keys(base).contains(k) {
                let j = choose|j: int| 0 <= j < entry_keys(base).len() && entry_keys(base)[j] == k;
                if e.len() == cap && e.len() > 0 {
                    assert(entry_keys(e)[j + 1] == k);
                } else {
                    assert(entry_keys(e)[j] == k);
                }
            }
        }
        assert(entry_keys(f) =~= entry_keys(base).push(k));
    } else {
        assert(entry_keys(f) =~= Seq::<Seq<char>>::empty());
    }
}

/// A statement inserted into a cache of non-zero capacity is found again
/// under its key, and the cache never holds more statements than its
/// capacity.
pub proof fn lemma_insert_then_lookup(e: Seq<(Seq<char>, u64)>, cap: nat, k: Seq<char>, v: u64)
    requires
        entry_keys(e).no_duplicates(),
        e.len() <= cap,
        cap > 0,
    ensures
        lookup_spec(insert_spec(e, cap, k, v).0, k) == Some(v),
        insert_spec(e, cap, k, v).0.len() <= cap,
        insert_spec(e, cap, k, v).0.last() == (k, v),
{
    lemma_insert_keys_distinct(e, cap, k, v);
    let f = insert_spec(e, cap, k, v).0;
    let n = f.len() - 1;
    assert(f[n] == (k, v));
    assert(entry_keys(f)[n] == k);
    assert(entry_keys(f).contains(k));
    assert(0 <= n < f.len() && f[n].0 == k);
    let c = key_index(f, k)->Some_0;
    assert(0 <= c < f.len() && f[c].0 == k);
    assert(entry_keys(f)[c] == k);
    if c != n {
        assert(entry_keys(f)[c] != entry_keys(f)[n]);
    }
}

/// A full cache that receives a new key evicts exactly its least recently
/// used statement.
pub proof fn lemma_full_cache_evicts_lru(e: Seq<(Seq<char>, u64)>, cap: nat, k: Seq<char>, v: u64)
    requires
        e.len() == cap,
        cap > 0,
        !entry_keys(e).contains(k),
    ensures
        insert_spec(e, cap, k, v) == (e.drop_first().push((k, v)), Some(e[0].1)),
{
}

} // verus!
