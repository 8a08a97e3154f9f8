//! Request classification and path parsing. A request is classified by
//! its method and path into showing the info page, uploading, retrieving,
//! or a rejection; the retrieval identifier is the first path segment and
//! the suggested upload filename is the last one.

use vstd::prelude::*;

verus! {

/// The request methods the service distinguishes.
#[derive(Clone, Copy, Debug, PartialEq, Eq)]
pub enum Method {
    /// An HTTP GET.
    Get,
    /// An HTTP PUT.
    Put,
    /// Anything else.
    Other,
}

/// What a request asks for.
#[derive(Clone, Copy, Debug, PartialEq, Eq)]
pub enum RequestKind {
    /// GET of the root path: show the info page.
    ShowInfo,
    /// GET of any other path: retrieve content.
    Retrieve,
    /// PUT of any path: upload content.
    Upload,
    /// Any other method: rejected.
    Forbidden,
}

/// How a request with the given method and path is handled.
pub open spec fn spec_classify(m: Method, path: Seq<u8>) -> RequestKind {
    match m {
        Method::Get => if path == seq![47u8] {  // "/"
            RequestKind::ShowInfo
        } else {
            RequestKind::Retrieve
        },
        Method::Put => RequestKind::Upload,
        Method::Other => RequestKind::Forbidden,
    }
}

/// Classifies a request.
pub fn classify_request(method: Method, path: &Vec<u8>) -> (r: RequestKind)
    ensures
        r == spec_classify(method, path@),
{
    match method {
        Method::Get => {
            if path.len() == 1 && path[0] == 47 {
                proof {
                    assert(path@ =~= seq![47u8]);
                }
                RequestKind::ShowInfo
            } else {
                proof {
                    if path@ == seq![47u8] {
                        assert(path@.len() == 1 && path@[0] == 47u8);
                    }
                }
                RequestKind::Retrieve
            }
        },
        Method::Put => RequestKind::Upload,
        Method::Other => RequestKind::Forbidden,
    }
}

/// Extracts the retrieval identifier from a path: the bytes between the
/// leading slash and the next slash (or the end). Trailing segments are
/// ignored.
pub fn path_identifier(path: &Vec<u8>) -> (r: Vec<u8>)
    requires
        path@.len() >= 1,
        path@[0] == 47u8,
    ensures
        ({
            let end = r@.len() + 1;
            &&& 1 <= end <= path@.len()
            &&& r@ == path@.subrange(1, end as int)
            &&& forall|j: int| 1 <= j < end ==> path@[j] != 47u8
            &&& end < path@.len() ==> path@[end as int] == 47u8
        }),
{
    let mut end: usize = 1;
    while end < path.len() && path[end] != 47
        invariant
            1 <= end <= path@.len(),
            forall|j: int| 1 <= j < end ==> path@[j] != 47u8,
        decreases path@.len() - end,
    {
        end = end + 1;
    }
    let mut r: Vec<u8> = Vec::new();
    proof {
        assert(r@ =~= path@.subrange(1, 1));
    }
    let mut i: usize = 1;
    while i < end
        invariant
            1 <= i <= end <= path@.len(),
            r@ == path@.subrange(1, i as int),
            forall|j: int| 1 <= j < end ==> path@[j] != 47u8,
            end < path@.len() ==> path@[end as int] == 47u8,
        decreases end - i,
    {
        r.push(path[i]);
        i = i + 1;
        proof {
            assert(r@ =~= path@.subrange(1, i as int));
        }
    }
    r
}

/// Extracts the suggested filename from an upload path: the bytes after
/// the last slash. It may be empty.
pub fn last_path_segment(path: &Vec<u8>) -> (r: Vec<u8>)
    requires
        path@.len() >= 1,
        path@[0] == 47u8,
    ensures
        ({
            let start = path@.len() - r@.len();
            &&& 1 <= start <= path@.len()
            &&& r@ == path@.subrange(start as int, path@.len() as int)
            &&& path@[start - 1] == 47u8
            &&& forall|j: int| start <= j < path@.len() ==> path@[j] != 47u8
        }),
{
    let mut start: usize = path.len();
    while path[start - 1] != 47
        invariant
            1 <= start <= path@.len(),
            forall|j: int| start <= j < path@.len() ==> path@[j] != 47u8,
            path@[0] == 47u8,
            path@.len() >= 1,
        decreases start,
    {
        start = start - 1;
    }
    let mut r: Vec<u8> = Vec::new();
    proof {
        assert(r@ =~= path@.subrange(start as int, start as int));
    }
    let mut i: usize = start;
    while i < path.len()
        invariant
            start <= i <= path@.len(),
            r@ == path@.subrange(start as int, i as int),
        decreases path@.len() - i,
    {
        r.push(path[i]);
        i = i + 1;
        proof {
            assert(r@ =~= path@.subrange(start as int, i as int));
        }
    }
    proof {
        assert(r@ =~= path@.subrange(start as int, path@.len() as int));
    }
    r
}

} // verus!
