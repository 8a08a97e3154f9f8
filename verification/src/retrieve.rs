//! The retrieval service: the two-tier read path. An identifier of the
//! wrong length is not found without any storage access; otherwise the
//! edge cache answers first, the durable store answers on a cache miss,
//! and bytes served from the store are written back into the cache with
//! the cache-tier retention window and a surrogate tag.

use vstd::prelude::*;
use crate::{ID_LENGTH, CACHE_TTL_SECS};
use crate::bytes::clone_bytes;
use crate::cache::{CacheEntryModel, EdgeCache};
use crate::keys::{key_of, make_key};
use crate::store::{ContentStore, EntryModel};

verus! {

/// Which tier served a retrieval.
#[derive(Clone, Copy, Debug, PartialEq, Eq)]
pub enum Tier {
    /// The edge cache answered.
    Cache,
    /// The durable store answered; the cache was populated on the way.
    Origin,
}

/// What a retrieval returns.
#[derive(Debug, PartialEq, Eq)]
pub enum Retrieved {
    /// The bytes, and the tier that served them.
    Found(Tier, Vec<u8>),
    /// No such content: the identifier is malformed, unknown, or expired;
    /// callers are never told which.
    NotFound,
}

/// What a retrieval of `id` finds, given the cache and store contents:
/// nothing when the identifier does not have the fixed length; the cached
/// bytes when the cache holds the key; the stored bytes when only the
/// store holds it; nothing otherwise.
pub open spec fn spec_retrieve_found(
    c: Map<Seq<u8>, CacheEntryModel>,
    m: Map<Seq<u8>, EntryModel>,
    id: Seq<u8>,
) -> Option<(Tier, Seq<u8>)> {
    if id.len() != ID_LENGTH {
        None
    } else if c.contains_key(key_of(id)) {
        Some((Tier::Cache, c[key_of(id)].bytes))
    } else if m.contains_key(key_of(id)) {
        Some((Tier::Origin, m[key_of(id)].bytes))
    } else {
        None
    }
}

/// The cache after a retrieval of `id`: populated with the stored bytes
/// exactly when the store answered a cache miss, untouched otherwise.
pub open spec fn spec_retrieve_cache(
    c: Map<Seq<u8>, CacheEntryModel>,
    m: Map<Seq<u8>, EntryModel>,
    id: Seq<u8>,
) -> Map<Seq<u8>, CacheEntryModel> {
    if id.len() == ID_LENGTH && !c.contains_key(key_of(id)) && m.contains_key(key_of(id)) {
        c.insert(
            key_of(id),
            CacheEntryModel {
                bytes: m[key_of(id)].bytes,
                ttl_secs: CACHE_TTL_SECS,
                tag: surrogate_tag(),
            },
        )
    } else {
        c
    }
}

/// The surrogate tag every populated cache entry carries: `get`.
pub open spec fn surrogate_tag() -> Seq<u8> {
    seq![103u8, 101u8, 116u8]  // "get"
}

/// Builds the surrogate tag.
pub fn make_surrogate_tag() -> (r: Vec<u8>)
    ensures
        r@ == surrogate_tag(),
{
    let mut r: Vec<u8> = Vec::new();
    r.push(103);  // g
    r.push(101);  // e
    r.push(116);  // t
    proof {
        assert(r@ =~= surrogate_tag());
    }
    r
}

/// Retrieves the content named `id` through the two-tier read path, as
/// `spec_retrieve_found` and `spec_retrieve_cache` say: cache first, then
/// the durable store, populating the cache on a store hit. The store is
/// never read when the identifier does not have the fixed length.
pub fn handle_retrieve(cache: &mut EdgeCache, store: &ContentStore, id: &Vec<u8>) -> (r: Retrieved)
    ensures
        final(cache)@ == spec_retrieve_cache(old(cache)@, store@, id@),
        match r {
            Retrieved::Found(tier, b) => spec_retrieve_found(old(cache)@, store@, id@) == Some(
                (tier, b@),
            ),
            Retrieved::NotFound => spec_retrieve_found(old(cache)@, store@, id@) is None,
        },
{
    if id.len() != ID_LENGTH {
        return Retrieved::NotFound;
    }
    let key = make_key(id);
    if let Some(b) = cache.lookup(&key) {
        let served = clone_bytes(b);
        return Retrieved::Found(Tier::Cache, served);
    }
    match store.lookup(&key) {
        Some(b) => {
            let served = clone_bytes(b);
            let copy = clone_bytes(&served);
            cache.insert(key, copy, CACHE_TTL_SECS, make_surrogate_tag());
            Retrieved::Found(Tier::Origin, served)
        },
        None => Retrieved::NotFound,
    }
}

} // verus!
