//! String interning with precomputed hashes: canonical strings that carry
//! their hash, arenas that own them, caches that deduplicate them, and the
//! lookup chain that carries one hash across several caches.
pub mod hashing;
pub mod hash_str;
pub mod table;
pub mod ornaments;
pub mod cache;
pub mod global;

pub use cache::{HashStrCache, HashStrHost, Presence};
pub use global::{whichbin, NUM_BINS};
pub use hash_str::{HashStr, HashString, RefFromBytesError, SIZE_HASH};
pub use hashing::{HashStrMap, HashStrSet, RandomState, XORHasher};
pub use ornaments::{GetHash, HashKey, HashedStr, UnhashedStr};
