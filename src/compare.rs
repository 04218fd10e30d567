//! Byte-wise comparison and blank checking of flash contents.
use vstd::prelude::*;

use crate::error::{ErrorCode, ERROR_FAILED};

verus! {

/// `k` is the length of the common prefix of the first `n` bytes of `a` and `b`.
pub open spec fn is_match_len(a: Seq<u8>, b: Seq<u8>, n: int, k: int) -> bool {
    &&& 0 <= k <= n
    &&& forall|j: int| 0 <= j < k ==> a[j] == b[j]
    &&& k < n ==> a[k] != b[k]
}

/// Every one of the first `n` bytes of `a` equals `pattern`.
pub open spec fn is_blank(a: Seq<u8>, n: int, pattern: u8) -> bool {
    forall|j: int| 0 <= j < n ==> a[j] == pattern
}

/// The number of leading bytes, of the first `size`, on which `flash` and
/// `expected` agree.
pub fn match_count(flash: &[u8], expected: &[u8], size: usize) -> (r: usize)
    requires
        size <= flash@.len(),
        size <= expected@.len(),
    ensures
        is_match_len(flash@, expected@, size as int, r as int),
{
    let mut k: usize = 0;
    while k < size && flash[k] == expected[k]
        invariant
            size <= flash@.len(),
            size <= expected@.len(),
            k <= size,
            forall|j: int| 0 <= j < k ==> flash@[j] == expected@[j],
        decreases size - k,
    {
        k = k + 1;
    }
    k
}

/// The verify report for `flash` read at `address` against `expected`: an
/// error whose code is `address` plus the length of the matching prefix,
/// whether or not everything matched. Address zero is no flash address, so
/// the code is never zero.
pub fn verify_outcome(address: u32, flash: &[u8], expected: &[u8]) -> (r: Result<(), ErrorCode>)
    requires
        flash@.len() <= expected@.len(),
        0 < address,
        address as int + flash@.len() <= u32::MAX,
    ensures
        r is Err,
        forall|k: int|
            is_match_len(flash@, expected@, flash@.len() as int, k) ==> #[trigger] (address + k)
                == r->Err_0.value(),
{
    let k = match_count(flash, expected, flash.len());
    let r = Err(ErrorCode::from_nonzero(address + k as u32));
    assert forall|k2: int| is_match_len(flash@, expected@, flash@.len() as int, k2) implies k2 == k by {
        if k2 < k {
            assert(flash@[k2] == expected@[k2]);
        } else if k < k2 {
            assert(flash@[k as int] == expected@[k as int]);
        }
    }
    r
}

/// `Ok` when every byte of `flash` equals `pattern`, else the generic failure.
pub fn blank_check_outcome(flash: &[u8], pattern: u8) -> (r: Result<(), ErrorCode>)
    ensures
        r is Ok <==> is_blank(flash@, flash@.len() as int, pattern),
        r matches Err(e) ==> e.value() == ERROR_FAILED,
{
    let mut j: usize = 0;
    while j < flash.len()
        invariant
            j <= flash@.len(),
            is_blank(flash@, j as int, pattern),
        decreases flash@.len() - j,
    {
        if flash[j] != pattern {
            return Err(ErrorCode::from_nonzero(ERROR_FAILED));
        }
        j = j + 1;
    }
    Ok(())
}

} // verus!
