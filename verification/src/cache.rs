//! A model of the fronting edge cache (EdgeCache): an ephemeral key →
//! entry map, keyed identically to the content store. Entries carry their
//! bytes, the cache-tier retention window, and a surrogate tag for bulk
//! invalidation. The cache is best-effort and disposable: it only ever
//! holds copies of bytes the durable store served.

use vstd::prelude::*;
use crate::bytes::bytes_eq;

verus! {

/// Abstract value cached under a key.
pub struct CacheEntryModel {
    /// The cached bytes.
    pub bytes: Seq<u8>,
    /// Retention window the entry was cached with, in seconds.
    pub ttl_secs: u64,
    /// Surrogate tag for grouped invalidation.
    pub tag: Seq<u8>,
}

/// Concrete value cached under a key.
pub struct CacheEntry {
    /// The cached bytes.
    pub bytes: Vec<u8>,
    /// Retention window the entry was cached with, in seconds.
    pub ttl_secs: u64,
    /// Surrogate tag for grouped invalidation.
    pub tag: Vec<u8>,
}

impl View for CacheEntry {
    type V = CacheEntryModel;

    open spec fn view(&self) -> CacheEntryModel {
        CacheEntryModel { bytes: self.bytes@, ttl_secs: self.ttl_secs, tag: self.tag@ }
    }
}

/// The key → entry map described by a write log: later writes win.
pub open spec fn cache_map(s: Seq<(Vec<u8>, CacheEntry)>) -> Map<Seq<u8>, CacheEntryModel>
    decreases s.len(),
{
    if s.len() == 0 {
        Map::empty()
    } else {
        cache_map(s.drop_last()).insert(s.last().0@, s.last().1@)
    }
}

proof fn lemma_cache_map_found(s: Seq<(Vec<u8>, CacheEntry)>, k: Seq<u8>, i: int)
    requires
        0 <= i < s.len(),
        s[i].0@ == k,
        forall|j: int| i < j < s.len() ==> s[j].0@ != k,
    ensures
        cache_map(s).contains_key(k),
        cache_map(s)[k] == s[i].1@,
    decreases s.len(),
{
    if i < s.len() - 1 {
        lemma_cache_map_found(s.drop_last(), k, i);
    }
}

proof fn lemma_cache_map_absent(s: Seq<(Vec<u8>, CacheEntry)>, k: Seq<u8>)
    requires
        forall|j: int| 0 <= j < s.len() ==> s[j].0@ != k,
    ensures
        !cache_map(s).contains_key(k),
    decreases s.len(),
{
    if s.len() > 0 {
        lemma_cache_map_absent(s.drop_last(), k);
    }
}

proof fn lemma_cache_map_push(s: Seq<(Vec<u8>, CacheEntry)>, p: (Vec<u8>, CacheEntry))
    ensures
        cache_map(s.push(p)) == cache_map(s).insert(p.0@, p.1@),
{
    assert(s.push(p).drop_last() =~= s);
}

/// The edge cache: a map from byte-string keys to cached entries.
pub struct EdgeCache {
    entries: Vec<(Vec<u8>, CacheEntry)>,
}

impl View for EdgeCache {
    type V = Map<Seq<u8>, CacheEntryModel>;

    closed spec fn view(&self) -> Map<Seq<u8>, CacheEntryModel> {
        cache_map(self.entries@)
    }
}

impl EdgeCache {
    /// A cache holding nothing.
    pub fn new() -> (r: EdgeCache)
        ensures
            r@ == Map::<Seq<u8>, CacheEntryModel>::empty(),
    {
        EdgeCache { entries: Vec::new() }
    }

    /// Looks the key up; returns the cached bytes, if any.
    pub fn lookup(&self, key: &Vec<u8>) -> (r: Option<&Vec<u8>>)
        ensures
            match r {
                Some(b) => self@.contains_key(key@) && b@ == self@[key@].bytes,
                None => !self@.contains_key(key@),
            },
    {
        let mut i: usize = self.entries.len();
        while i > 0
            invariant
                i <= self.entries.len(),
                forall|j: int| i <= j < self.entries@.len() ==> self.entries@[j].0@ != key@,
            decreases i,
        {
            i = i - 1;
            if bytes_eq(&self.entries[i].0, key) {
                proof {
                    lemma_cache_map_found(self.entries@, key@, i as int);
                }
                return Some(&self.entries[i].1.bytes);
            }
        }
        proof {
            lemma_cache_map_absent(self.entries@, key@);
        }
        None
    }

    /// Whether the key holds a cached entry.
    pub fn contains(&self, key: &Vec<u8>) -> (r: bool)
        ensures
            r == self@.contains_key(key@),
    {
        self.lookup(key).is_some()
    }

    /// Caches `bytes` under `key` with the given retention window and
    /// surrogate tag, replacing whatever the key held.
    pub fn insert(&mut self, key: Vec<u8>, bytes: Vec<u8>, ttl_secs: u64, tag: Vec<u8>)
        ensures
            final(self)@ == old(self)@.insert(key@, CacheEntryModel { bytes: bytes@, ttl_secs, tag: tag@ }),
    {
        let entry = CacheEntry { bytes, ttl_secs, tag };
        proof {
            lemma_cache_map_push(self.entries@, (key, entry));
        }
        self.entries.push((key, entry));
    }
}

} // verus!
