//! The upload service: validates the body, derives the content
//! identifier, and performs the deduplicated insert-if-absent write plus
//! the upload-log append. Re-uploading bytes already stored under their
//! identifier writes nothing and leaves the counter alone.

use vstd::prelude::*;
use crate::{ID_LENGTH, MIN_CONTENT_SIZE, MAX_CONTENT_SIZE, KV_TTL_SECS};
use crate::bytes::push_all;
use crate::ident::{derive_identifier, spec_identifier};
use crate::keys::{key_of, make_key, metrics_key};
use crate::stats::{log_record, record_upload};
use crate::store::{ContentStore, EntryModel, spec_append};

verus! {

/// Why an upload was rejected before any storage access.
#[derive(Clone, Copy, Debug, PartialEq, Eq)]
pub enum ValidationError {
    /// The body was empty.
    EmptyBody,
    /// The body was shorter than the minimum content size.
    TooSmall,
    /// The body was longer than the maximum content size.
    TooLarge,
}

/// The validation verdict for a body of `len` bytes: empty bodies, bodies
/// under the minimum size, and bodies over the maximum size are rejected,
/// in that order of checks; anything else is accepted.
pub open spec fn spec_validate(len: nat) -> Option<ValidationError> {
    if len == 0 {
        Some(ValidationError::EmptyBody)
    } else if len < MIN_CONTENT_SIZE {
        Some(ValidationError::TooSmall)
    } else if len > MAX_CONTENT_SIZE {
        Some(ValidationError::TooLarge)
    } else {
        None
    }
}

/// Checks whether `body` may be uploaded; `None` means it may.
pub fn validate_content(body: &Vec<u8>) -> (r: Option<ValidationError>)
    ensures
        r == spec_validate(body@.len()),
{
    if body.len() == 0 {
        Some(ValidationError::EmptyBody)
    } else if body.len() < MIN_CONTENT_SIZE {
        Some(ValidationError::TooSmall)
    } else if body.len() > MAX_CONTENT_SIZE {
        Some(ValidationError::TooLarge)
    } else {
        None
    }
}

/// The store after an upload of valid content `b` whose identifier is
/// `id`, recorded at `now_secs`: if the content key is already present
/// the store is untouched (deduplicated re-upload); otherwise the bytes
/// are written under the key with the content retention window and an
/// upload record is appended to the log.
pub open spec fn spec_upload_state(
    m: Map<Seq<u8>, EntryModel>,
    b: Seq<u8>,
    id: Seq<u8>,
    now_secs: u64,
) -> Map<Seq<u8>, EntryModel> {
    if m.contains_key(key_of(id)) {
        m
    } else {
        spec_append(
            m.insert(key_of(id), EntryModel { bytes: b, ttl_secs: KV_TTL_SECS, appends: 0 }),
            metrics_key(),
            log_record(id, now_secs),
        )
    }
}

/// Validates `body` and, if it is acceptable, stores it under its derived
/// identifier as `spec_upload_state` says, returning the identifier.
/// Rejected bodies leave the store untouched.
pub fn handle_upload(store: &mut ContentStore, body: Vec<u8>, now_secs: u64) -> (r: Result<
    Vec<u8>,
    ValidationError,
>)
    ensures
        match r {
            Ok(id) => {
                &&& spec_validate(body@.len()) is None
                &&& id@ == spec_identifier(body@)
                &&& id@.len() == ID_LENGTH
                &&& final(store)@ == spec_upload_state(old(store)@, body@, id@, now_secs)
            },
            Err(e) => {
                &&& spec_validate(body@.len()) == Some(e)
                &&& final(store)@ == old(store)@
            },
        },
{
    if let Some(e) = validate_content(&body) {
        return Err(e);
    }
    let id = derive_identifier(&body);
    let key = make_key(&id);
    if store.contains(&key) {
        return Ok(id);
    }
    store.insert(key, body, KV_TTL_SECS);
    record_upload(store, &id, now_secs);
    Ok(id)
}

/// The download URL answered to a successful upload:
/// `https://<host>/<id>`, then `/<filename>` when a non-empty filename
/// was suggested (cosmetic only: retrieval ignores it), then a newline.
pub open spec fn spec_location(host: Seq<u8>, id: Seq<u8>, filename: Option<Seq<u8>>) -> Seq<u8> {
    seq![104u8, 116u8, 116u8, 112u8, 115u8, 58u8, 47u8, 47u8]  // "https://"
    + host + seq![47u8] + id + (match filename {
        Some(f) => if f.len() > 0 {
            seq![47u8] + f
        } else {
            Seq::<u8>::empty()
        },
        None => Seq::<u8>::empty(),
    }) + seq![10u8]
}

/// Builds the download URL for an upload answered with identifier `id`.
pub fn upload_location(host: &Vec<u8>, id: &Vec<u8>, filename: Option<&Vec<u8>>) -> (r: Vec<u8>)
    ensures
        r@ == spec_location(
            host@,
            id@,
            match filename {
                Some(f) => Some(f@),
                None => None,
            },
        ),
{
    let mut r: Vec<u8> = Vec::new();
    r.push(104);  // h
    r.push(116);  // t
    r.push(116);  // t
    r.push(112);  // p
    r.push(115);  // s
    r.push(58);  // :
    r.push(47);  // /
    r.push(47);  // /
    proof {
        assert(r@ =~= seq![104u8, 116u8, 116u8, 112u8, 115u8, 58u8, 47u8, 47u8]);
    }
    push_all(&mut r, host);
    r.push(47);  // /
    push_all(&mut r, id);
    if let Some(f) = filename {
        if f.len() > 0 {
            r.push(47);  // /
            push_all(&mut r, f);
        }
    }
    r.push(10);  // newline
    proof {
        assert(r@ =~= spec_location(
            host@,
            id@,
            match filename {
                Some(f) => Some(f@),
                None => None,
            },
        ));
    }
    r
}

} // verus!
