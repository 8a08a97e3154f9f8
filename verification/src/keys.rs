//! Storage keys. Content is stored under `file_<identifier>`; the upload
//! log sits under the well-known key `_upload_metrics`. Keys are byte
//! strings, written here as ASCII codes.

use vstd::prelude::*;
use crate::bytes::push_all;

verus! {

/// The storage key for content with identifier `id`: `file_` then `id`.
pub open spec fn key_of(id: Seq<u8>) -> Seq<u8> {
    seq![102u8, 105u8, 108u8, 101u8, 95u8] + id  // "file_"
}

/// The well-known key of the upload log: `_upload_metrics`.
pub open spec fn metrics_key() -> Seq<u8> {
    seq![95u8, 117u8, 112u8, 108u8, 111u8, 97u8, 100u8, 95u8, 109u8, 101u8, 116u8, 114u8, 105u8, 99u8, 115u8]
}

/// A content key never collides with the upload-log key: one starts with
/// `f`, the other with `_`.
pub proof fn lemma_key_of_ne_metrics(id: Seq<u8>)
    ensures
        key_of(id) != metrics_key(),
{
    assert(key_of(id)[0] == 102u8);
    assert(metrics_key()[0] == 95u8);
}

/// Builds the storage key for identifier `id`.
pub fn make_key(id: &Vec<u8>) -> (r: Vec<u8>)
    ensures
        r@ == key_of(id@),
{
    let mut r: Vec<u8> = Vec::new();
    r.push(102);  // f
    r.push(105);  // i
    r.push(108);  // l
    r.push(101);  // e
    r.push(95);  // _
    proof {
        assert(r@ =~= seq![102u8, 105u8, 108u8, 101u8, 95u8]);
    }
    push_all(&mut r, id);
    r
}

/// Builds the upload-log key.
pub fn make_metrics_key() -> (r: Vec<u8>)
    ensures
        r@ == metrics_key(),
{
    let mut r: Vec<u8> = Vec::new();
    r.push(95);  // _
    r.push(117);  // u
    r.push(112);  // p
    r.push(108);  // l
    r.push(111);  // o
    r.push(97);  // a
    r.push(100);  // d
    r.push(95);  // _
    r.push(109);  // m
    r.push(101);  // e
    r.push(116);  // t
    r.push(114);  // r
    r.push(105);  // i
    r.push(99);  // c
    r.push(115);  // s
    proof {
        assert(r@ =~= metrics_key());
    }
    r
}

} // verus!
