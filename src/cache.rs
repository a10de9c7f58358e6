//! The sizes by which cached responses are weighed against the cache's
//! capacity.
use vstd::prelude::*;

verus! {

/// `mb` megabytes in bytes, or `u64::MAX` where that does not fit.
pub fn capacity_bytes(mb: u64) -> (r: u64)
    ensures
        r == (if mb * 1048576 <= u64::MAX {
            (mb * 1048576) as u64
        } else {
            u64::MAX
        }),
{
    if mb <= u64::MAX / 1048576 {
        mb * 1048576
    } else {
        u64::MAX
    }
}

/// The weight of a cached response: the bytes of its fixed part, its URL and
/// its body, at least 1 and at most `u32::MAX`.
pub fn entry_weight(fixed: usize, url_len: usize, body_len: usize) -> (r: u32)
    ensures
        r == (if fixed + url_len + body_len == 0 {
            1
        } else if fixed + url_len + body_len > u32::MAX {
            u32::MAX as int
        } else {
            fixed + url_len + body_len
        }),
{
    let total: u64 = (fixed as u64).saturating_add(url_len as u64).saturating_add(body_len as u64);
    if total == 0 {
        1
    } else if total > u32::MAX as u64 {
        u32::MAX
    } else {
        total as u32
    }
}

} // verus!
