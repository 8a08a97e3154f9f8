//! Layout arithmetic for the info page: the centering padding of its
//! header line. The header shows the host name three times across a
//! 70-column line, 6 columns of which the fixed `(1)` markers take.

use vstd::prelude::*;

verus! {

/// Columns available to the three host names: 70 minus the markers.
pub const HEADER_COLUMNS: usize = 70 - 6;

/// The padding width for a host name of `n` characters: what remains of
/// the header columns after the three host names, split in half and
/// widened by one, but never under two; two whenever the names alone
/// overflow the line.
pub open spec fn spec_padding_width(n: int) -> int {
    if 3 * n < HEADER_COLUMNS {
        let w = (HEADER_COLUMNS - 3 * n) / 2 + 1;
        if w < 2 {
            2
        } else {
            w
        }
    } else {
        2
    }
}

/// Computes the header padding width for a host name of `host_len`
/// characters.
pub fn padding_width(host_len: usize) -> (r: usize)
    ensures
        r == spec_padding_width(host_len as int),
{
    if host_len <= (HEADER_COLUMNS - 1) / 3 {
        let w = (HEADER_COLUMNS - host_len * 3) / 2 + 1;
        if w < 2 {
            2
        } else {
            w
        }
    } else {
        2
    }
}

/// Builds the header padding for a host name of `host_len` characters:
/// that many spaces.
pub fn padding_bytes(host_len: usize) -> (r: Vec<u8>)
    ensures
        r@.len() == spec_padding_width(host_len as int),
        forall|i: int| 0 <= i < r@.len() ==> r@[i] == 32u8,
{
    let width = padding_width(host_len);
    let mut r: Vec<u8> = Vec::new();
    let mut i: usize = 0;
    while i < width
        invariant
            i <= width,
            r@.len() == i,
            forall|j: int| 0 <= j < r@.len() ==> r@[j] == 32u8,
        decreases width - i,
    {
        r.push(32);  // space
        i = i + 1;
    }
    r
}

} // verus!
