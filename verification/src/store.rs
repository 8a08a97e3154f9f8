//! A model of the durable key/value backend (ContentStore): a key → entry
//! map where every entry carries its bytes, the retention window it was
//! written with, and the number of append-mode writes made to its key.
//! The append tally is the backend's per-key write generation, which the
//! stats tracker reads back as the upload count.
//!
//! The representation is an append-only list of (key, entry) pairs; the
//! abstract view is the map in which the latest write to a key wins.

use vstd::prelude::*;
use crate::bytes::{bytes_eq, clone_bytes};

verus! {

/// Abstract value stored under a key.
pub struct EntryModel {
    /// The bytes held under the key.
    pub bytes: Seq<u8>,
    /// Retention window the entry was written with, in seconds.
    pub ttl_secs: u64,
    /// How many append-mode writes the key has received.
    pub appends: u64,
}

/// Concrete value stored under a key.
pub struct StoreEntry {
    /// The bytes held under the key.
    pub bytes: Vec<u8>,
    /// Retention window the entry was written with, in seconds.
    pub ttl_secs: u64,
    /// How many append-mode writes the key has received.
    pub appends: u64,
}

impl View for StoreEntry {
    type V = EntryModel;

    open spec fn view(&self) -> EntryModel {
        EntryModel { bytes: self.bytes@, ttl_secs: self.ttl_secs, appends: self.appends }
    }
}

/// The key → entry map described by a write log: later writes win.
pub open spec fn entries_map(s: Seq<(Vec<u8>, StoreEntry)>) -> Map<Seq<u8>, EntryModel>
    decreases s.len(),
{
    if s.len() == 0 {
        Map::empty()
    } else {
        entries_map(s.drop_last()).insert(s.last().0@, s.last().1@)
    }
}

/// The entry that an append-mode write of `record` leaves under key `k`:
/// bytes are concatenated onto any existing entry and its append tally
/// grows by one (saturating); a fresh key starts at tally one with no
/// retention window recorded.
pub open spec fn spec_append_entry(m: Map<Seq<u8>, EntryModel>, k: Seq<u8>, record: Seq<u8>) -> EntryModel {
    if m.contains_key(k) {
        EntryModel {
            bytes: m[k].bytes + record,
            ttl_secs: m[k].ttl_secs,
            appends: if m[k].appends < u64::MAX { (m[k].appends + 1) as u64 } else { m[k].appends },
        }
    } else {
        EntryModel { bytes: record, ttl_secs: 0, appends: 1 }
    }
}

/// The map after an append-mode write of `record` under key `k`.
pub open spec fn spec_append(m: Map<Seq<u8>, EntryModel>, k: Seq<u8>, record: Seq<u8>) -> Map<Seq<u8>, EntryModel> {
    m.insert(k, spec_append_entry(m, k, record))
}

proof fn lemma_entries_map_found(s: Seq<(Vec<u8>, StoreEntry)>, k: Seq<u8>, i: int)
    requires
        0 <= i < s.len(),
        s[i].0@ == k,
        forall|j: int| i < j < s.len() ==> s[j].0@ != k,
    ensures
        entries_map(s).contains_key(k),
        entries_map(s)[k] == s[i].1@,
    decreases s.len(),
{
    if i == s.len() - 1 {
    } else {
        lemma_entries_map_found(s.drop_last(), k, i);
    }
}

proof fn lemma_entries_map_absent(s: Seq<(Vec<u8>, StoreEntry)>, k: Seq<u8>)
    requires
        forall|j: int| 0 <= j < s.len() ==> s[j].0@ != k,
    ensures
        !entries_map(s).contains_key(k),
    decreases s.len(),
{
    if s.len() > 0 {
        lemma_entries_map_absent(s.drop_last(), k);
    }
}

proof fn lemma_entries_map_push(s: Seq<(Vec<u8>, StoreEntry)>, p: (Vec<u8>, StoreEntry))
    ensures
        entries_map(s.push(p)) == entries_map(s).insert(p.0@, p.1@),
{
    assert(s.push(p).drop_last() =~= s);
}

/// The durable key/value store: a map from byte-string keys to entries,
/// with plain writes, append-mode writes, and lookups.
pub struct ContentStore {
    entries: Vec<(Vec<u8>, StoreEntry)>,
}

impl View for ContentStore {
    type V = Map<Seq<u8>, EntryModel>;

    closed spec fn view(&self) -> Map<Seq<u8>, EntryModel> {
        entries_map(self.entries@)
    }
}

impl ContentStore {
    /// A store holding nothing.
    pub fn new() -> (r: ContentStore)
        ensures
            r@ == Map::<Seq<u8>, EntryModel>::empty(),
    {
        ContentStore { entries: Vec::new() }
    }

    /// Looks the key up; returns the entry under it, if any.
    pub fn lookup_entry(&self, key: &Vec<u8>) -> (r: Option<&StoreEntry>)
        ensures
            match r {
                Some(e) => self@.contains_key(key@) && e@ == self@[key@],
                None => !self@.contains_key(key@),
            },
    {
        let mut i: usize = self.entries.len();
        while i > 0
            invariant
                i <= self.entries.len(),
                forall|j: int| i <= j < self.entries@.len() ==> self.entries@[j].0@ != key@,
            decreases i,
        {
            i = i - 1;
            if bytes_eq(&self.entries[i].0, key) {
                proof {
                    lemma_entries_map_found(self.entries@, key@, i as int);
                }
                return Some(&self.entries[i].1);
            }
        }
        proof {
            lemma_entries_map_absent(self.entries@, key@);
        }
        None
    }

    /// Looks the key up; returns the bytes under it, if any.
    pub fn lookup(&self, key: &Vec<u8>) -> (r: Option<&Vec<u8>>)
        ensures
            match r {
                Some(b) => self@.contains_key(key@) && b@ == self@[key@].bytes,
                None => !self@.contains_key(key@),
            },
    {
        match self.lookup_entry(key) {
            Some(e) => Some(&e.bytes),
            None => None,
        }
    }

    /// Whether the key holds an entry.
    pub fn contains(&self, key: &Vec<u8>) -> (r: bool)
        ensures
            r == self@.contains_key(key@),
    {
        self.lookup_entry(key).is_some()
    }

    /// Writes `bytes` under `key` with the given retention window,
    /// replacing whatever the key held.
    pub fn insert(&mut self, key: Vec<u8>, bytes: Vec<u8>, ttl_secs: u64)
        ensures
            final(self)@ == old(self)@.insert(key@, EntryModel { bytes: bytes@, ttl_secs, appends: 0 }),
    {
        let entry = StoreEntry { bytes, ttl_secs, appends: 0 };
        proof {
            lemma_entries_map_push(self.entries@, (key, entry));
        }
        self.entries.push((key, entry));
    }

    /// Append-mode write: concatenates `record` onto the bytes under
    /// `key` and advances the key's append tally, as `spec_append` says.
    pub fn append(&mut self, key: Vec<u8>, record: Vec<u8>)
        ensures
            final(self)@ == spec_append(old(self)@, key@, record@),
    {
        let entry = match self.lookup_entry(&key) {
            Some(e) => {
                let mut joined = clone_bytes(&e.bytes);
                let ttl_secs = e.ttl_secs;
                let appends = if e.appends < u64::MAX { e.appends + 1 } else { e.appends };
                crate::bytes::push_all(&mut joined, &record);
                StoreEntry { bytes: joined, ttl_secs, appends }
            },
            None => StoreEntry { bytes: record, ttl_secs: 0, appends: 1 },
        };
        proof {
            lemma_entries_map_push(self.entries@, (key, entry));
        }
        self.entries.push((key, entry));
    }
}

} // verus!
