//! Splitting a page write into bulk transfers of bounded size.
use vstd::prelude::*;

verus! {

/// Largest number of 32-bit words one transfer descriptor carries.
pub const MAX_TRANSFER_WORDS: u32 = 1024;

/// One transfer: `words` 32-bit words from byte `offset` of the source to the
/// same offset of the destination.
#[derive(Clone, Copy, Debug, PartialEq, Eq, Structural)]
pub struct TransferChunk {
    pub offset: u32,
    pub words: u32,
}

/// Number of transfers a run of `words` words takes.
pub open spec fn chunk_count(words: nat) -> nat {
    (words + MAX_TRANSFER_WORDS - 1) as nat / MAX_TRANSFER_WORDS as nat
}

/// The `i`-th transfer of a run of `words` words: full chunks first, then
/// one holding the remainder.
pub open spec fn chunk_at(words: nat, i: int) -> TransferChunk {
    TransferChunk {
        offset: (i * 4 * MAX_TRANSFER_WORDS) as u32,
        words: if i < words / MAX_TRANSFER_WORDS as nat {
            MAX_TRANSFER_WORDS
        } else {
            (words % MAX_TRANSFER_WORDS as nat) as u32
        },
    }
}

/// The transfers that copy `words` words, in the order they are issued.
pub fn plan_chunks(words: u32) -> (r: Vec<TransferChunk>)
    requires
        words < 0x4000_0000,
    ensures
        r@.len() == chunk_count(words as nat),
        forall|i: int| 0 <= i < r@.len() ==> #[trigger] r@[i] == chunk_at(words as nat, i),
        forall|i: int| 0 <= i < r@.len() ==> 0 < #[trigger] r@[i].words <= MAX_TRANSFER_WORDS,
{
    let full: u32 = words / MAX_TRANSFER_WORDS;
    let rem: u32 = words % MAX_TRANSFER_WORDS;
    let mut r: Vec<TransferChunk> = Vec::new();
    let mut i: u32 = 0;
    while i < full
        invariant
            full == words / MAX_TRANSFER_WORDS,
            rem == words % MAX_TRANSFER_WORDS,
            words < 0x4000_0000,
            i <= full,
            r@.len() == i,
            forall|k: int| 0 <= k < r@.len() ==> r@[k] == chunk_at(words as nat, k),
        decreases full - i,
    {
        r.push(TransferChunk { offset: i * 4 * MAX_TRANSFER_WORDS, words: MAX_TRANSFER_WORDS });
        i = i + 1;
    }
    if rem > 0 {
        r.push(TransferChunk { offset: full * 4 * MAX_TRANSFER_WORDS, words: rem });
    }
    assert forall|i: int| 0 <= i < r@.len() implies 0 < #[trigger] r@[i].words
        <= MAX_TRANSFER_WORDS by {
        assert(r@[i] == chunk_at(words as nat, i));
    }
    r
}

} // verus!
