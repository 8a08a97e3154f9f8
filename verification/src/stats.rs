//! The stats tracker: an append-only log of `identifier,timestamp`
//! records under the well-known upload-log key. The upload count is not a
//! stored integer: it is read back from the key's append tally (the
//! backend's write generation), so it starts at zero when the log has
//! never been written and never decreases.

use vstd::prelude::*;
use crate::keys::{metrics_key, make_metrics_key};
use crate::store::{ContentStore, EntryModel, spec_append};
use crate::bytes::{clone_bytes, push_all};

verus! {

/// The decimal digits of `n`, most significant first, as ASCII bytes.
pub open spec fn dec_of(n: nat) -> Seq<u8>
    decreases n,
{
    if n < 10 {
        seq![(48 + n) as u8]
    } else {
        dec_of(n / 10).push((48 + n % 10) as u8)
    }
}

/// Writes `n` in decimal ASCII.
pub fn u64_to_dec(n: u64) -> (r: Vec<u8>)
    ensures
        r@ == dec_of(n as nat),
    decreases n,
{
    if n < 10 {
        let mut r: Vec<u8> = Vec::new();
        r.push(48 + (n as u8));
        proof {
            assert(r@ =~= dec_of(n as nat));
        }
        r
    } else {
        let mut r = u64_to_dec(n / 10);
        r.push(48 + ((n % 10) as u8));
        r
    }
}

/// The log record written for an upload: the identifier, a comma, and the
/// upload time in whole seconds.
pub open spec fn log_record(id: Seq<u8>, now_secs: u64) -> Seq<u8> {
    id + seq![44u8] + dec_of(now_secs as nat)  // 44 is ','
}

/// The upload count a store reports: the append tally of the upload-log
/// key, or zero when that key has never been written.
pub open spec fn spec_count(m: Map<Seq<u8>, EntryModel>) -> u64 {
    if m.contains_key(metrics_key()) {
        m[metrics_key()].appends
    } else {
        0
    }
}

/// Appends an `identifier,timestamp` record to the upload log.
pub fn record_upload(store: &mut ContentStore, id: &Vec<u8>, now_secs: u64)
    ensures
        final(store)@ == spec_append(old(store)@, metrics_key(), log_record(id@, now_secs)),
{
    let mut record = clone_bytes(id);
    record.push(44);  // ,
    let digits = u64_to_dec(now_secs);
    push_all(&mut record, &digits);
    proof {
        assert(record@ =~= log_record(id@, now_secs));
    }
    store.append(make_metrics_key(), record);
}

/// Reads the upload count off the store: the number of append-mode
/// writes the upload log has received, zero if it was never written.
pub fn current_count(store: &ContentStore) -> (r: u64)
    ensures
        r == spec_count(store@),
{
    let key = make_metrics_key();
    match store.lookup_entry(&key) {
        Some(e) => e.appends,
        None => 0,
    }
}

} // verus!
