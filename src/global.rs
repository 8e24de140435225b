use vstd::prelude::*;

verus! {

/// The number of bits of a hash that select a shard.
pub const BIN_SHIFT: u64 = 6;

/// The number of shards of a process-wide cache.
pub const NUM_BINS: usize = 64;

/// How far a hash is shifted right to leave its top bits.
pub const TOP_SHIFT: u64 = 64 - BIN_SHIFT;

/// The shard of a hash: its top six bits, so that the choice of shard does
/// not follow the low bits that place an entry within a shard's table.
pub open spec fn shard_of(hash: u64) -> int {
    ((hash >> TOP_SHIFT) % (NUM_BINS as u64)) as int
}

/// The shard that `hash` belongs to.
pub fn whichbin(hash: u64) -> (r: usize)
    ensures
        r as int == shard_of(hash),
        r < NUM_BINS,
{
    let bin = (hash >> TOP_SHIFT) % (NUM_BINS as u64);
    bin as usize
}

/// A hash is routed to the same shard on every call.
pub proof fn lemma_shard_fixed(hash: u64, first: usize, second: usize)
    requires
        first as int == shard_of(hash),
        second as int == shard_of(hash),
    ensures
        first == second,
        first < NUM_BINS,
{
    assert(((hash >> 58u64) % 64u64) < 64u64) by (bit_vector);
}

} // verus!
