use vstd::prelude::*;
use core::hash::{BuildHasher, Hasher};
use crate::hash_str::HashStr;

verus! {

/// The fixed-seed interning hash of a string's characters.
pub uninterp spec fn fixed_hash_of(s: Seq<char>) -> u64;

/// Relies on `ahash::RandomState::with_seeds`: hashers built from the same
/// seeds are identical, so the hash of a string depends on its bytes alone.
#[verifier::external_body]
pub(crate) fn make_hash(value: &str) -> (r: u64)
    ensures
        r == fixed_hash_of(value@),
{
    let not_random_state = ahash::RandomState::with_seeds(0, 0, 0, 0);
    let mut hasher = not_random_state.build_hasher();
    hasher.write(value.as_bytes());
    hasher.finish()
}

/// Relies on `ahash::RandomState::new`, whose keys are drawn at random for
/// each state: a fresh salt. Nothing is known of its value.
#[verifier::external_body]
fn random_salt() -> u64 {
    ahash::RandomState::new().hash_one(0u64)
}

/// A hash map keyed by canonical strings, hashed by their precomputed hash.
pub type HashStrMap<'a, V> = std::collections::HashMap<HashStr<'a>, V, RandomState>;

/// A hash set of canonical strings, hashed by their precomputed hash.
pub type HashStrSet<'a> = std::collections::HashSet<HashStr<'a>, RandomState>;

/// One byte folded into a hasher's state: the state turns left by a byte,
/// then takes the new byte in by exclusive or.
pub open spec fn fold_byte(state: u64, byte: u8) -> u64 {
    ((state << 8u64) | (state >> 56u64)) ^ (byte as u64)
}

/// Bytes folded into a hasher's state, first to last.
pub open spec fn fold_bytes(state: u64, bytes: Seq<u8>) -> u64
    decreases bytes.len(),
{
    if bytes.len() == 0 {
        state
    } else {
        fold_byte(fold_bytes(state, bytes.drop_last()), bytes.last())
    }
}

/// Builds hashers that salt precomputed hashes, one salt per hash table, so
/// that keys chosen against the interning hash cannot collide in every table.
#[derive(Clone, Copy, Debug)]
pub struct RandomState {
    random_state: u64,
}

impl RandomState {
    /// A state with the given salt.
    pub fn with_salt(salt: u64) -> (r: RandomState)
        ensures
            r.salt() == salt,
    {
        RandomState { random_state: salt }
    }

    pub closed spec fn salt(&self) -> u64 {
        self.random_state
    }

    /// A hasher that salts with this state's salt.
    pub fn make_hasher(&self) -> (r: XORHasher)
        ensures
            r.salt() == self.salt(),
            r.state() == 0,
    {
        XORHasher { random_state: self.random_state, hash: 0 }
    }
}

impl Default for RandomState {
    /// A state with a salt drawn at random.
    fn default() -> (r: RandomState)
        ensures
            true,
    {
        RandomState { random_state: random_salt() }
    }
}

impl BuildHasher for RandomState {
    type Hasher = XORHasher;

    fn build_hasher(&self) -> XORHasher {
        self.make_hasher()
    }
}

/// A hasher for keys that carry a precomputed hash: it hands that hash on,
/// combined with a salt by exclusive or.
#[derive(Debug)]
pub struct XORHasher {
    random_state: u64,
    hash: u64,
}

impl XORHasher {
    pub closed spec fn salt(&self) -> u64 {
        self.random_state
    }

    pub closed spec fn state(&self) -> u64 {
        self.hash
    }

    /// Takes in a precomputed hash: the state becomes it, salted.
    pub fn write_hash(&mut self, value: u64)
        ensures
            final(self).salt() == old(self).salt(),
            final(self).state() == value ^ old(self).salt(),
    {
        self.hash = value ^ self.random_state;
    }

    /// Folds bytes into the state, for keys without a precomputed hash.
    pub fn write_bytes(&mut self, bytes: &[u8])
        ensures
            final(self).salt() == old(self).salt(),
            final(self).state() == fold_bytes(old(self).state(), bytes@),
    {
        let mut i: usize = 0;
        while i < bytes.len()
            invariant
                i <= bytes@.len(),
                self.salt() == old(self).salt(),
                self.state() == fold_bytes(old(self).state(), bytes@.subrange(0, i as int)),
            decreases bytes@.len() - i,
        {
            proof {
                let next = bytes@.subrange(0, i + 1);
                assert(next.drop_last() =~= bytes@.subrange(0, i as int));
            }
            self.hash = ((self.hash << 8u64) | (self.hash >> 56u64)) ^ (bytes[i] as u64);
            i = i + 1;
        }
        proof {
            assert(bytes@.subrange(0, bytes@.len() as int) =~= bytes@);
        }
    }

    pub fn finish_hash(&self) -> (r: u64)
        ensures
            r == self.state(),
    {
        self.hash
    }
}

impl Hasher for XORHasher {
    fn write_u64(&mut self, value: u64) {
        self.write_hash(value);
    }

    fn write(&mut self, bytes: &[u8]) {
        self.write_bytes(bytes);
    }

    fn finish(&self) -> u64 {
        self.finish_hash()
    }
}

impl Default for XORHasher {
    /// A hasher with a salt drawn at random.
    fn default() -> (r: XORHasher)
        ensures
            r.state() == 0,
    {
        RandomState::default().make_hasher()
    }
}

} // verus!
