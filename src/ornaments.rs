use vstd::prelude::*;
use crate::hashing::{fixed_hash_of, make_hash};
use crate::hash_str::HashStr;

verus! {

/// A borrowed string with a hash, not allocated anywhere. It carries the hash
/// of a failed lookup along a chain of caches.
#[derive(Clone, Copy, Debug)]
pub struct HashedStr<'a> {
    pub(crate) hash: u64,
    pub(crate) str: &'a str,
}

impl<'a> View for HashedStr<'a> {
    type V = (u64, Seq<char>);

    closed spec fn view(&self) -> (u64, Seq<char>) {
        (self.hash, self.str@)
    }
}

impl<'a> HashedStr<'a> {
    /// Hashes `str` with the interning hash.
    pub fn new(str: &'a str) -> (r: HashedStr<'a>)
        ensures
            r@ == (fixed_hash_of(str@), str@),
    {
        let hash = make_hash(str);
        HashedStr { hash, str }
    }

    /// A pair of a hash and a string, taken as they are.
    pub fn from_parts(hash: u64, str: &'a str) -> (r: HashedStr<'a>)
        ensures
            r@ == (hash, str@),
    {
        HashedStr { hash, str }
    }

    pub fn precomputed_hash(&self) -> (r: u64)
        ensures
            r == self@.0,
    {
        self.hash
    }

    pub fn as_str(&self) -> (r: &'a str)
        ensures
            r@ == self@.1,
    {
        self.str
    }
}

/// A borrowed string that is hashed each time its hash is asked for.
#[derive(Clone, Copy, Debug)]
pub struct UnhashedStr<'a> {
    str: &'a str,
}

impl<'a> View for UnhashedStr<'a> {
    type V = Seq<char>;

    closed spec fn view(&self) -> Seq<char> {
        self.str@
    }
}

impl<'a> UnhashedStr<'a> {
    pub fn from_ref(str: &'a str) -> (r: UnhashedStr<'a>)
        ensures
            r@ == str@,
    {
        UnhashedStr { str }
    }

    pub fn as_str(&self) -> (r: &'a str)
        ensures
            r@ == self@,
    {
        self.str
    }

    /// Hashes the content now, giving a key for a map of canonical strings
    /// without allocating.
    pub fn hashed(&self) -> (r: HashStr<'a>)
        ensures
            r@ == (fixed_hash_of(self@), self@),
    {
        HashStr::from_parts(make_hash(self.str), self.str)
    }
}

/// A value whose interning hash is known or can be computed.
pub trait GetHash {
    spec fn spec_hash(&self) -> u64;

    fn get_hash(&self) -> (r: u64)
        ensures
            r == self.spec_hash(),
    ;
}

/// A value that can serve as a lookup key: a hash and the content it stands for.
pub trait HashKey<'a>: GetHash {
    spec fn spec_key(&self) -> Seq<char>;

    fn key_str(&self) -> (r: &'a str)
        ensures
            r@ == self.spec_key(),
    ;
}

impl<'a> GetHash for &'a str {
    open spec fn spec_hash(&self) -> u64 {
        fixed_hash_of((**self)@)
    }

    fn get_hash(&self) -> (r: u64) {
        make_hash(*self)
    }
}

impl<'a> HashKey<'a> for &'a str {
    open spec fn spec_key(&self) -> Seq<char> {
        (**self)@
    }

    fn key_str(&self) -> (r: &'a str) {
        *self
    }
}

impl<'a> GetHash for &'a String {
    open spec fn spec_hash(&self) -> u64 {
        fixed_hash_of((**self)@)
    }

    fn get_hash(&self) -> (r: u64) {
        make_hash(self.as_str())
    }
}

impl<'a> HashKey<'a> for &'a String {
    open spec fn spec_key(&self) -> Seq<char> {
        (**self)@
    }

    fn key_str(&self) -> (r: &'a str) {
        self.as_str()
    }
}

impl<'a> GetHash for HashStr<'a> {
    open spec fn spec_hash(&self) -> u64 {
        self@.0
    }

    fn get_hash(&self) -> (r: u64) {
        self.precomputed_hash()
    }
}

impl<'a> HashKey<'a> for HashStr<'a> {
    open spec fn spec_key(&self) -> Seq<char> {
        self@.1
    }

    fn key_str(&self) -> (r: &'a str) {
        self.as_str()
    }
}

impl<'a> GetHash for HashedStr<'a> {
    open spec fn spec_hash(&self) -> u64 {
        self@.0
    }

    fn get_hash(&self) -> (r: u64) {
        self.hash
    }
}

impl<'a> HashKey<'a> for HashedStr<'a> {
    open spec fn spec_key(&self) -> Seq<char> {
        self@.1
    }

    fn key_str(&self) -> (r: &'a str) {
        self.str
    }
}

impl<'a> GetHash for UnhashedStr<'a> {
    open spec fn spec_hash(&self) -> u64 {
        fixed_hash_of(self@)
    }

    fn get_hash(&self) -> (r: u64) {
        make_hash(self.str)
    }
}

impl<'a> HashKey<'a> for UnhashedStr<'a> {
    open spec fn spec_key(&self) -> Seq<char> {
        self@
    }

    fn key_str(&self) -> (r: &'a str) {
        self.str
    }
}

} // verus!
