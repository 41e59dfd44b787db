//! The cache of inference answers: answers are kept by their normalized
//! query (trimmed and lowercased) for five minutes; when the cache is full,
//! the least recently used answer makes room for a new query.

use vstd::prelude::*;
use crate::text::str_eq;

verus! {

/// How long an answer stays valid, in milliseconds.
pub const CACHE_TTL_MS: u64 = 300000;

/// A cached answer with its times, in milliseconds, and its number of uses.
pub struct CacheEntry<V> {
    pub value: V,
    pub created_at: u64,
    pub last_accessed: u64,
    pub access_count: u64,
}

/// Counters of the cache.
#[derive(Debug, Clone, Copy, PartialEq, Eq, Structural)]
pub struct CacheCounters {
    pub hits: u64,
    pub misses: u64,
    pub evictions: u64,
    pub entry_count: usize,
    pub max_entries: usize,
}

/// The cache key of a query: trimmed and lowercased.
pub open spec fn cache_key(query: Seq<char>) -> Seq<char> {
    crate::utils::lowercase(crate::db::trim(query))
}

/// Whether an answer made at `created_at` is still valid at `now`.
pub open spec fn fresh(created_at: u64, now: u64) -> bool {
    (if now >= created_at { now - created_at } else { 0 }) < CACHE_TTL_MS
}

/// The position of the entry of key `k`, or -1.
pub open spec fn key_index<V>(s: Seq<(String, CacheEntry<V>)>, k: Seq<char>) -> int
    decreases s.len(),
{
    if s.len() == 0 {
        -1
    } else if s.last().0@ == k {
        s.len() - 1
    } else {
        key_index(s.drop_last(), k)
    }
}

/// No key occurs twice.
pub open spec fn unique_keys<V>(s: Seq<(String, CacheEntry<V>)>) -> bool {
    forall|i: int, j: int| 0 <= i < j < s.len() ==> (#[trigger] s[i]).0@ != (#[trigger] s[j]).0@
}

proof fn lemma_key_index<V>(s: Seq<(String, CacheEntry<V>)>, k: Seq<char>)
    ensures
        -1 <= key_index(s, k) < s.len(),
        key_index(s, k) >= 0 ==> s[key_index(s, k)].0@ == k,
        forall|j: int| key_index(s, k) < j < s.len() ==> (#[trigger] s[j]).0@ != k,
    decreases s.len(),
{
    if s.len() > 0 && s.last().0@ != k {
        lemma_key_index(s.drop_last(), k);
        assert forall|j: int| key_index(s, k) < j < s.len() implies (#[trigger] s[j]).0@ != k by {
            if j < s.len() - 1 {
                assert(s[j] == s.drop_last()[j]);
            }
        }
    }
}

proof fn lemma_key_index_unique<V>(s: Seq<(String, CacheEntry<V>)>, k: Seq<char>, i: int)
    requires
        unique_keys(s),
        0 <= i < s.len(),
        s[i].0@ == k,
    ensures
        key_index(s, k) == i,
{
    lemma_key_index(s, k);
}

/// Whether position `i` holds an entry used least recently of all.
pub open spec fn least_recent<V>(s: Seq<(String, CacheEntry<V>)>, i: int) -> bool {
    &&& 0 <= i < s.len()
    &&& forall|j: int| 0 <= j < s.len() ==> s[i].1.last_accessed <= (#[trigger] s[j]).1.last_accessed
}

/// The answers cached under their keys.
pub struct InferenceCache<V> {
    entries: Vec<(String, CacheEntry<V>)>,
    max_entries: usize,
    hits: u64,
    misses: u64,
    evictions: u64,
}

impl<V> InferenceCache<V> {
    /// The entries, each under its key.
    pub closed spec fn spec_entries(&self) -> Seq<(String, CacheEntry<V>)> {
        self.entries@
    }

    /// The most entries.
    pub closed spec fn spec_max(&self) -> usize {
        self.max_entries
    }

    /// The counters of hits, misses and evictions.
    pub closed spec fn spec_counts(&self) -> (u64, u64, u64) {
        (self.hits, self.misses, self.evictions)
    }

    /// The cache's invariant: no key twice.
    pub open spec fn well_formed(&self) -> bool {
        unique_keys(self.spec_entries())
    }

    /// The entry under key `k`, if any.
    pub open spec fn entry_of(&self, k: Seq<char>) -> Option<CacheEntry<V>> {
        let i = key_index(self.spec_entries(), k);
        if i >= 0 {
            Some(self.spec_entries()[i].1)
        } else {
            None
        }
    }

    /// An empty cache for at most `max_entries` answers.
    pub fn new(max_entries: usize) -> (c: Self)
        ensures
            c.well_formed(),
            c.spec_entries().len() == 0,
            c.spec_max() == max_entries,
            c.spec_counts() == (0u64, 0u64, 0u64),
    {
        InferenceCache { entries: Vec::new(), max_entries, hits: 0, misses: 0, evictions: 0 }
    }

    fn find(&self, key: &str) -> (r: Option<usize>)
        ensures
            match r {
                Some(i) => i as int == key_index(self.spec_entries(), key@) && i < self.spec_entries().len(),
                None => key_index(self.spec_entries(), key@) < 0,
            },
    {
        proof {
            lemma_key_index(self.spec_entries(), key@);
        }
        let mut i: usize = self.entries.len();
        while i > 0
            invariant
                i <= self.entries@.len(),
                forall|j: int| i <= j < self.entries@.len() ==> (#[trigger] self.entries@[j]).0@ != key@,
                -1 <= key_index(self.spec_entries(), key@) < self.spec_entries().len(),
                key_index(self.spec_entries(), key@) >= 0 ==> self.spec_entries()[key_index(self.spec_entries(), key@)].0@ == key@,
                forall|j: int| key_index(self.spec_entries(), key@) < j < self.spec_entries().len() ==> (#[trigger] self.spec_entries()[j]).0@ != key@,
            decreases i,
        {
            if str_eq(self.entries[i - 1].0.as_str(), key) {
                return Some(i - 1);
            }
            i = i - 1;
        }
        None
    }

    /// The key of a query.
    pub fn normalize_key(query: &str) -> (r: String)
        ensures
            r@ == cache_key(query@),
    {
        let t = crate::db::trim_text(query);
        crate::utils::to_lowercase(t.as_str())
    }

    /// Looks the query up at `now`: a valid answer counts a hit and is marked
    /// used at `now` (`true`); an expired one is dropped; otherwise a miss is
    /// counted (`false`).
    pub fn lookup_at(&mut self, query: &str, now: u64) -> (hit: bool)
        requires
            old(self).well_formed(),
            old(self).spec_counts().0 < u64::MAX,
            old(self).spec_counts().1 < u64::MAX,
            old(self).entry_of(cache_key(query@)) matches Some(e) ==> e.access_count < u64::MAX,
        ensures
            final(self).well_formed(),
            final(self).spec_max() == old(self).spec_max(),
            ({
                let k = cache_key(query@);
                match old(self).entry_of(k) {
                    Some(e) => if fresh(e.created_at, now) {
                        &&& hit
                        &&& final(self).spec_counts() == ((old(self).spec_counts().0 + 1) as u64, old(self).spec_counts().1, old(self).spec_counts().2)
                        &&& final(self).spec_entries().len() == old(self).spec_entries().len()
                        &&& final(self).entry_of(k) matches Some(f) && f.value == e.value && f.created_at == e.created_at
                            && f.last_accessed == now && f.access_count == e.access_count + 1
                        &&& forall|j: int| 0 <= j < old(self).spec_entries().len() && j != key_index(old(self).spec_entries(), k)
                            ==> #[trigger] final(self).spec_entries()[j] == old(self).spec_entries()[j]
                    } else {
                        &&& !hit
                        &&& final(self).spec_counts() == (old(self).spec_counts().0, (old(self).spec_counts().1 + 1) as u64, old(self).spec_counts().2)
                        &&& final(self).spec_entries() == old(self).spec_entries().remove(key_index(old(self).spec_entries(), k))
                    },
                    None => {
                        &&& !hit
                        &&& final(self).spec_counts() == (old(self).spec_counts().0, (old(self).spec_counts().1 + 1) as u64, old(self).spec_counts().2)
                        &&& final(self).spec_entries() == old(self).spec_entries()
                    },
                }
            }),
    {
        let key = Self::normalize_key(query);
        proof {
            lemma_key_index(self.spec_entries(), key@);
        }
        match self.find(key.as_str()) {
            Some(i) => {
                let created = self.entries[i].1.created_at;
                let elapsed = now.saturating_sub(created);
                if elapsed < CACHE_TTL_MS {
                    let mut entries: Vec<(String, CacheEntry<V>)> = Vec::new();
                    std::mem::swap(&mut entries, &mut self.entries);
                    let (k, mut e) = entries.remove(i);
                    e.last_accessed = now;
                    e.access_count = e.access_count + 1;
                    entries.insert(i, (k, e));
                    std::mem::swap(&mut entries, &mut self.entries);
                    self.hits = self.hits + 1;
                    proof {
                        let s = old(self).spec_entries();
                        assert forall|a: int, b: int| 0 <= a < b < self.spec_entries().len() implies (#[trigger] self.spec_entries()[a]).0@ != (#[trigger] self.spec_entries()[b]).0@ by {
                            assert(self.spec_entries()[a].0@ == s[a].0@);
                            assert(self.spec_entries()[b].0@ == s[b].0@);
                        }
                        lemma_key_index_unique(self.spec_entries(), key@, i as int);
                    }
                    true
                } else {
                    let _gone = self.entries.remove(i);
                    self.misses = self.misses + 1;
                    proof {
                        let s = old(self).spec_entries();
                        assert forall|a: int, b: int| 0 <= a < b < self.spec_entries().len() implies (#[trigger] self.spec_entries()[a]).0@ != (#[trigger] self.spec_entries()[b]).0@ by {
                            let a2 = if a < i { a } else { a + 1 };
                            let b2 = if b < i { b } else { b + 1 };
                            assert(self.spec_entries()[a] == s[a2]);
                            assert(self.spec_entries()[b] == s[b2]);
                        }
                    }
                    false
                }
            },
            None => {
                self.misses = self.misses + 1;
                false
            },
        }
    }

    /// The cached answer to a query, if any (valid or not).
    pub fn peek(&self, query: &str) -> (r: Option<&V>)
        ensures
            match self.entry_of(cache_key(query@)) {
                Some(e) => r == Some(&e.value),
                None => r is None,
            },
    {
        let key = Self::normalize_key(query);
        match self.find(key.as_str()) {
            Some(i) => Some(&self.entries[i].1.value),
            None => None,
        }
    }

    /// Stores the answer to a query at `now` (replacing an earlier answer to
    /// it). When the cache is full and the query is new, an entry used least
    /// recently makes room, and an eviction is counted.
    pub fn put_at(&mut self, query: &str, value: V, now: u64)
        requires
            old(self).well_formed(),
            old(self).spec_counts().2 < u64::MAX,
        ensures
            final(self).well_formed(),
            final(self).spec_max() == old(self).spec_max(),
            final(self).spec_counts().0 == old(self).spec_counts().0,
            final(self).spec_counts().1 == old(self).spec_counts().1,
            final(self).entry_of(cache_key(query@)) == Some(CacheEntry { value, created_at: now, last_accessed: now, access_count: 1 }),
            ({
                let k = cache_key(query@);
                let s = old(self).spec_entries();
                if key_index(s, k) < 0 && s.len() >= old(self).spec_max() && s.len() > 0 {
                    &&& final(self).spec_counts().2 == old(self).spec_counts().2 + 1
                    &&& final(self).spec_entries().len() == s.len()
                    &&& exists|i: int| #[trigger] least_recent(s, i)
                        && final(self).spec_entries() == s.remove(i).push((final(self).spec_entries().last().0, CacheEntry { value, created_at: now, last_accessed: now, access_count: 1 }))
                } else if key_index(s, k) < 0 {
                    &&& final(self).spec_counts().2 == old(self).spec_counts().2
                    &&& final(self).spec_entries().len() == s.len() + 1
                    &&& final(self).spec_entries().drop_last() == s
                } else {
                    &&& final(self).spec_counts().2 == old(self).spec_counts().2
                    &&& final(self).spec_entries().len() == s.len()
                    &&& forall|j: int| 0 <= j < s.len() && j != key_index(s, k) ==> #[trigger] final(self).spec_entries()[j] == s[j]
                }
            }),
    {
        let key = Self::normalize_key(query);
        let entry = CacheEntry { value, created_at: now, last_accessed: now, access_count: 1 };
        proof {
            lemma_key_index(self.spec_entries(), key@);
        }
        match self.find(key.as_str()) {
            Some(i) => {
                let mut entries: Vec<(String, CacheEntry<V>)> = Vec::new();
                std::mem::swap(&mut entries, &mut self.entries);
                let (k, _old) = entries.remove(i);
                entries.insert(i, (k, entry));
                std::mem::swap(&mut entries, &mut self.entries);
                proof {
                    let s = old(self).spec_entries();
                    assert forall|a: int, b: int| 0 <= a < b < self.spec_entries().len() implies (#[trigger] self.spec_entries()[a]).0@ != (#[trigger] self.spec_entries()[b]).0@ by {
                        assert(self.spec_entries()[a].0@ == s[a].0@);
                        assert(self.spec_entries()[b].0@ == s[b].0@);
                    }
                    lemma_key_index_unique(self.spec_entries(), key@, i as int);
                }
            },
            None => {
                proof {
                    lemma_key_index(old(self).spec_entries(), key@);
                }
                if self.entries.len() >= self.max_entries && self.entries.len() > 0 {
                    let lru = self.least_recent_index();
                    let _gone = self.entries.remove(lru);
                    self.evictions = self.evictions + 1;
                    proof {
                        let s = old(self).spec_entries();
                        assert forall|a: int, b: int| 0 <= a < b < self.spec_entries().len() implies (#[trigger] self.spec_entries()[a]).0@ != (#[trigger] self.spec_entries()[b]).0@ by {
                            let a2 = if a < lru { a } else { a + 1 };
                            let b2 = if b < lru { b } else { b + 1 };
                            assert(self.spec_entries()[a] == s[a2]);
                            assert(self.spec_entries()[b] == s[b2]);
                        }
                        assert forall|j: int| 0 <= j < self.spec_entries().len() implies (#[trigger] self.spec_entries()[j]).0@ != key@ by {
                            let j2 = if j < lru { j } else { j + 1 };
                            assert(self.spec_entries()[j] == s[j2]);
                        }
                    }
                }
                let ghost before = self.spec_entries();
                proof {
                    lemma_key_index(before, key@);
                }
                self.entries.push((key, entry));
                proof {
                    assert(self.spec_entries().drop_last() =~= before);
                    assert forall|a: int, b: int| 0 <= a < b < self.spec_entries().len() implies (#[trigger] self.spec_entries()[a]).0@ != (#[trigger] self.spec_entries()[b]).0@ by {
                        if b == before.len() {
                            assert(self.spec_entries()[a] == before[a]);
                        } else {
                            assert(self.spec_entries()[a] == before[a]);
                            assert(self.spec_entries()[b] == before[b]);
                        }
                    }
                    lemma_key_index_unique(self.spec_entries(), self.spec_entries().last().0@, self.spec_entries().len() - 1);
                }
            },
        }
    }

    /// A position holding an entry used least recently (the first such).
    fn least_recent_index(&self) -> (i: usize)
        requires
            self.entries@.len() > 0,
        ensures
            least_recent(self.spec_entries(), i as int),
    {
        let mut best: usize = 0;
        let mut k: usize = 1;
        while k < self.entries.len()
            invariant
                0 <= best < k <= self.entries@.len(),
                forall|j: int| 0 <= j < k ==> self.entries@[best as int].1.last_accessed <= (#[trigger] self.entries@[j]).1.last_accessed,
            decreases self.entries@.len() - k,
        {
            if self.entries[k].1.last_accessed < self.entries[best].1.last_accessed {
                best = k;
            }
            k = k + 1;
        }
        best
    }

    /// Empties the cache; the counters stay.
    pub fn clear(&mut self)
        ensures
            final(self).well_formed(),
            final(self).spec_entries().len() == 0,
            final(self).spec_max() == old(self).spec_max(),
            final(self).spec_counts() == old(self).spec_counts(),
    {
        self.entries.clear();
    }

    /// The counters, the number of entries and the most entries.
    pub fn stats(&self) -> (r: CacheCounters)
        ensures
            r.hits == self.spec_counts().0,
            r.misses == self.spec_counts().1,
            r.evictions == self.spec_counts().2,
            r.entry_count == self.spec_entries().len(),
            r.max_entries == self.spec_max(),
    {
        CacheCounters {
            hits: self.hits,
            misses: self.misses,
            evictions: self.evictions,
            entry_count: self.entries.len(),
            max_entries: self.max_entries,
        }
    }
}

} // verus!
