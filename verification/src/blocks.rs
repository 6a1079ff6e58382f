//! How a buffer of samples is cut into the fixed-size blocks that a synthesis
//! engine renders.
use vstd::prelude::*;

verus! {

/// The number of samples in one engine block.
pub const BLOCK_SIZE: usize = 128;

/// The number of whole blocks in `len` samples; the samples past the last whole
/// block are not rendered.
pub fn block_count(len: usize) -> (n: usize)
    ensures
        n == len / 128,
        n * 128 <= len < n * 128 + 128,
{
    len / BLOCK_SIZE
}

/// The bounds `(start, end)` of each whole block in `len` samples, in order.
pub fn block_bounds(len: usize) -> (bounds: Vec<(usize, usize)>)
    ensures
        bounds.len() == len / 128,
        forall|r: int| 0 <= r < bounds.len() ==> #[trigger] bounds@[r] == (
            (r * 128) as usize,
            (r * 128 + 128) as usize,
        ),
{
    let n = block_count(len);
    let mut bounds: Vec<(usize, usize)> = Vec::new();
    let mut r: usize = 0;
    while r < n
        invariant
            n == len / 128,
            n * 128 <= len,
            r <= n,
            bounds.len() == r,
            forall|k: int| 0 <= k < r ==> #[trigger] bounds@[k] == (
                (k * 128) as usize,
                (k * 128 + 128) as usize,
            ),
        decreases n - r,
    {
        bounds.push((r * BLOCK_SIZE, r * BLOCK_SIZE + BLOCK_SIZE));
        r = r + 1;
    }
    bounds
}

/// The block that sample `j` falls in.
pub open spec fn block_of(j: int) -> int {
    j / 128
}

/// The blocks tile the rendered samples: every sample before the first one left
/// over lies in exactly the block `block_of` names, and less than a block is left
/// over.
pub proof fn lemma_blocks_tile(len: nat)
    ensures
        forall|j: int|
            0 <= j < (len / 128) * 128 ==> {
                &&& 0 <= #[trigger] block_of(j) < len / 128
                &&& block_of(j) * 128 <= j < block_of(j) * 128 + 128
            },
        len - (len / 128) * 128 < 128,
{
}

} // verus!
