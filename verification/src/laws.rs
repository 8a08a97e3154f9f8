//! System-wide properties of the paste store, stated over the abstract
//! store and cache maps and proved once for all contents, identifiers
//! and times.

use vstd::prelude::*;
use crate::ID_LENGTH;
use crate::cache::CacheEntryModel;
use crate::keys::{key_of, metrics_key, lemma_key_of_ne_metrics};
use crate::retrieve::{spec_retrieve_cache, spec_retrieve_found, Tier};
use crate::stats::spec_count;
use crate::store::EntryModel;
use crate::upload::{spec_upload_state, spec_validate};

verus! {

/// Dedup: once content sits under its identifier, uploading the same
/// bytes again is a no-op — the store, and with it the upload count, are
/// left exactly as they were. Starting from a store that does not hold
/// the identifier yet, the first upload raises the count by exactly one
/// and the second changes nothing.
pub proof fn lemma_duplicate_upload(
    m: Map<Seq<u8>, EntryModel>,
    b: Seq<u8>,
    id: Seq<u8>,
    now1: u64,
    now2: u64,
)
    requires
        !m.contains_key(key_of(id)),
        spec_count(m) < u64::MAX,
    ensures
        ({
            let m1 = spec_upload_state(m, b, id, now1);
            &&& spec_count(m1) == spec_count(m) + 1
            &&& spec_upload_state(m1, b, id, now2) == m1
            &&& spec_count(spec_upload_state(m1, b, id, now2)) == spec_count(m) + 1
        }),
{
    lemma_key_of_ne_metrics(id);
}

/// Counter monotonicity: no upload, deduplicated or not, ever lowers the
/// upload count. (Retrieval never writes to the store at all, and a store
/// that was never written counts zero.)
pub proof fn lemma_count_monotonic(m: Map<Seq<u8>, EntryModel>, b: Seq<u8>, id: Seq<u8>, now: u64)
    ensures
        spec_count(spec_upload_state(m, b, id, now)) >= spec_count(m),
{
    lemma_key_of_ne_metrics(id);
}

/// A store that was never written counts zero uploads.
pub proof fn lemma_count_starts_at_zero()
    ensures
        spec_count(Map::<Seq<u8>, EntryModel>::empty()) == 0,
{
}

/// Round trip: retrieving the identifier under which valid content was
/// just uploaded returns that content, from either tier. This holds as
/// long as neither tier already held different bytes under the same
/// identifier — the scheme deliberately treats a present key as "already
/// stored", so a hash-prefix collision with distinct content is accepted,
/// not detected.
pub proof fn lemma_round_trip(
    c: Map<Seq<u8>, CacheEntryModel>,
    m: Map<Seq<u8>, EntryModel>,
    b: Seq<u8>,
    id: Seq<u8>,
    now: u64,
)
    requires
        id.len() == ID_LENGTH,
        spec_validate(b.len()) is None,
        m.contains_key(key_of(id)) ==> m[key_of(id)].bytes == b,
        c.contains_key(key_of(id)) ==> c[key_of(id)].bytes == b,
    ensures
        ({
            let m1 = spec_upload_state(m, b, id, now);
            match spec_retrieve_found(c, m1, id) {
                Some((tier, served)) => served == b,
                None => false,
            }
        }),
{
    lemma_key_of_ne_metrics(id);
}

/// Cache population: a retrieval that a cache miss sends to the store is
/// served from the origin and writes the served bytes into the cache;
/// retrieving the same identifier again is served from the cache, with
/// the same bytes, and leaves the cache as it is.
pub proof fn lemma_cache_population(
    c: Map<Seq<u8>, CacheEntryModel>,
    m: Map<Seq<u8>, EntryModel>,
    id: Seq<u8>,
)
    requires
        id.len() == ID_LENGTH,
        !c.contains_key(key_of(id)),
        m.contains_key(key_of(id)),
    ensures
        ({
            let served = m[key_of(id)].bytes;
            let c1 = spec_retrieve_cache(c, m, id);
            &&& spec_retrieve_found(c, m, id) == Some((Tier::Origin, served))
            &&& c1.contains_key(key_of(id)) && c1[key_of(id)].bytes == served
            &&& spec_retrieve_found(c1, m, id) == Some((Tier::Cache, served))
            &&& spec_retrieve_cache(c1, m, id) == c1
        }),
{
}

/// Origin expiry: the retention window is the backend's to enforce, and
/// expiry is the removal of the content key. Once that happens, a cache
/// that was already populated goes on serving the bytes for its own,
/// longer window; a cache that never saw them reports the content gone.
pub proof fn lemma_expired_origin(
    c: Map<Seq<u8>, CacheEntryModel>,
    m: Map<Seq<u8>, EntryModel>,
    id: Seq<u8>,
)
    requires
        id.len() == ID_LENGTH,
    ensures
        ({
            let m1 = m.remove(key_of(id));
            &&& c.contains_key(key_of(id)) ==> spec_retrieve_found(c, m1, id) == Some(
                (Tier::Cache, c[key_of(id)].bytes),
            )
            &&& !c.contains_key(key_of(id)) ==> spec_retrieve_found(c, m1, id) is None
        }),
{
}

/// A malformed identifier — any length other than the fixed one — is not
/// found and leaves the cache untouched, whatever either tier holds.
pub proof fn lemma_malformed_not_found(
    c: Map<Seq<u8>, CacheEntryModel>,
    m: Map<Seq<u8>, EntryModel>,
    id: Seq<u8>,
)
    requires
        id.len() != ID_LENGTH,
    ensures
        spec_retrieve_found(c, m, id) is None,
        spec_retrieve_cache(c, m, id) == c,
{
}

/// A well-formed identifier that neither tier holds is not found and
/// leaves the cache untouched.
pub proof fn lemma_unknown_not_found(
    c: Map<Seq<u8>, CacheEntryModel>,
    m: Map<Seq<u8>, EntryModel>,
    id: Seq<u8>,
)
    requires
        !c.contains_key(key_of(id)),
        !m.contains_key(key_of(id)),
    ensures
        spec_retrieve_found(c, m, id) is None,
        spec_retrieve_cache(c, m, id) == c,
{
}

} // verus!
