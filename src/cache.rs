use vstd::prelude::*;
use crate::hash_str::HashStr;
use crate::ornaments::{GetHash, HashKey, HashedStr};
use crate::table::{
    EntryTable, table_capacity, table_clear, table_entries, table_find, table_insert, table_items,
    table_len, table_new, table_reserve, table_with_capacity,
};

verus! {

#[verifier::external_type_specification]
#[verifier::external_body]
pub struct ExBump<const MIN_ALIGN: usize>(bumpalo::Bump<MIN_ALIGN>);

/// Relies on `bumpalo::Bump::new`: an arena with no chunk yet.
#[verifier::external_body]
fn bump_new() -> bumpalo::Bump {
    bumpalo::Bump::new()
}

/// Relies on `bumpalo::Bump::with_capacity`: an arena with a first chunk
/// of at least `capacity` bytes. Sizes past the bound overflow its layout
/// arithmetic, and it panics.
#[verifier::external_body]
fn bump_with_capacity(capacity: usize) -> bumpalo::Bump
    requires
        capacity <= isize::MAX / 2,
{
    bumpalo::Bump::with_capacity(capacity)
}

/// Relies on `bumpalo::Bump::reset`: the arena's chunks are kept for reuse,
/// and what was allocated before is gone.
#[verifier::external_body]
fn bump_reset(bump: &mut bumpalo::Bump) {
    bump.reset();
}

/// Relies on `bumpalo::Bump::alloc_str`: a copy of `src` in the arena, which
/// lives as long as the arena's borrow.
#[verifier::external_body]
fn bump_alloc_str<'b>(bump: &'b bumpalo::Bump, src: &str) -> (r: &'b str)
    ensures
        r@ == src@,
{
    bump.alloc_str(src)
}

/// Relies on `bumpalo::Bump::allocated_bytes`: the bytes allocated in the
/// arena's chunks so far.
#[verifier::external_body]
fn bump_allocated_bytes(bump: &bumpalo::Bump) -> usize {
    bump.allocated_bytes()
}

/// Backing storage for interned strings: an arena that only grows.
#[derive(Debug)]
pub struct HashStrHost(bumpalo::Bump);

impl HashStrHost {
    pub fn new() -> HashStrHost {
        HashStrHost(bump_new())
    }

    /// A host with `capacity` bytes reserved up front.
    pub fn with_capacity(capacity: usize) -> HashStrHost
        requires
            capacity <= isize::MAX / 2,
    {
        HashStrHost(bump_with_capacity(capacity))
    }

    /// Frees every string this host has allocated. Taking `&mut self`
    /// makes sure that no string of it is still borrowed.
    pub fn clear(&mut self) {
        bump_reset(&mut self.0);
    }

    /// The number of bytes allocated by this host so far.
    pub fn allocated_bytes(&self) -> usize {
        bump_allocated_bytes(&self.0)
    }

    /// Allocates a new string, whether or not an equal one exists.
    pub fn allocate<'a, K: HashKey<'a>>(&self, index: K) -> (r: HashStr<'_>)
        ensures
            r@ == (index.spec_hash(), index.spec_key()),
    {
        self.alloc_str_with_hash(index.get_hash(), index.key_str())
    }

    /// Allocates a copy of `str` tagged with the given hash.
    pub fn alloc_str_with_hash(&self, hash: u64, str: &str) -> (r: HashStr<'_>)
        ensures
            r@ == (hash, str@),
    {
        let copy = bump_alloc_str(&self.0, str);
        HashStr::from_parts(hash, copy)
    }
}

/// An index of canonical strings stored in hosts that outlive it: at most one
/// entry for each pair of hash and content.
#[derive(Debug)]
pub struct HashStrCache<'host> {
    entries: EntryTable<'host>,
}

impl<'host> View for HashStrCache<'host> {
    type V = Set<(u64, Seq<char>)>;

    closed spec fn view(&self) -> Set<(u64, Seq<char>)> {
        table_entries(self.entries)
    }
}

impl<'host> HashStrCache<'host> {
    pub fn new() -> (r: HashStrCache<'host>)
        ensures
            r@ == Set::<(u64, Seq<char>)>::empty(),
    {
        HashStrCache { entries: table_new() }
    }

    pub fn with_capacity(capacity: usize) -> (r: HashStrCache<'host>)
        requires
            capacity <= isize::MAX / 256,
        ensures
            r@ == Set::<(u64, Seq<char>)>::empty(),
    {
        HashStrCache { entries: table_with_capacity(capacity) }
    }

    /// Forgets every entry. The strings themselves stay where their hosts
    /// keep them.
    pub fn clear(&mut self)
        ensures
            final(self)@ == Set::<(u64, Seq<char>)>::empty(),
    {
        table_clear(&mut self.entries);
    }

    /// The entry equal to `index`, if there is one.
    pub fn get<'a, K: HashKey<'a>>(&self, index: K) -> (r: Option<HashStr<'host>>)
        ensures
            r is Some <==> self@.contains((index.spec_hash(), index.spec_key())),
            r is Some ==> r->Some_0@ == (index.spec_hash(), index.spec_key()),
    {
        self.get_str_with_hash(index.get_hash(), index.key_str())
    }

    /// The entry with this hash and content, if there is one.
    pub fn get_str_with_hash(&self, hash: u64, str: &str) -> (r: Option<HashStr<'host>>)
        ensures
            r is Some <==> self@.contains((hash, str@)),
            r is Some ==> r->Some_0@ == (hash, str@),
    {
        table_find(&self.entries, hash, str)
    }

    /// Looks `index` up; where it is absent, the result carries its hash on
    /// to the next cache of a chain.
    pub fn presence<'a, K: HashKey<'a>>(&self, index: K) -> (r: Presence<
        HashStr<'host>,
        HashedStr<'a>,
    >)
        ensures
            r.found(self@, (index.spec_hash(), index.spec_key())),
    {
        self.presence_str_with_hash(index.get_hash(), index.key_str())
    }

    pub fn presence_str_with_hash<'a>(&self, hash: u64, str: &'a str) -> (r: Presence<
        HashStr<'host>,
        HashedStr<'a>,
    >)
        ensures
            r.found(self@, (hash, str@)),
    {
        match table_find(&self.entries, hash, str) {
            Some(entry) => Presence::Present(entry),
            None => Presence::Absent(HashedStr::from_parts(hash, str)),
        }
    }

    /// Indexes a string that lives elsewhere, or returns the entry equal to
    /// it. Copies no bytes.
    pub fn cache(&mut self, hash_str: HashStr<'host>) -> (r: HashStr<'host>)
        ensures
            r@ == hash_str@,
            final(self)@ == old(self)@.insert(hash_str@),
    {
        match table_find(&self.entries, hash_str.precomputed_hash(), hash_str.as_str()) {
            Some(entry) => entry,
            None => {
                table_insert(&mut self.entries, hash_str);
                hash_str
            },
        }
    }

    /// Interns `index`: returns the entry equal to it, or allocates one on
    /// `host` and indexes it.
    pub fn intern_with<'a, K: HashKey<'a>>(&mut self, host: &'host HashStrHost, index: K) -> (r:
        HashStr<'host>)
        ensures
            r@ == (index.spec_hash(), index.spec_key()),
            final(self)@ == old(self)@.insert(r@),
    {
        self.intern_str_with_hash(host, index.get_hash(), index.key_str())
    }

    pub fn intern_str_with_hash(&mut self, host: &'host HashStrHost, hash: u64, str: &str) -> (r:
        HashStr<'host>)
        ensures
            r@ == (hash, str@),
            final(self)@ == old(self)@.insert(r@),
    {
        match table_find(&self.entries, hash, str) {
            Some(entry) => {
                proof {
                    assert(old(self)@.insert(entry@) =~= old(self)@);
                }
                entry
            },
            None => {
                let fresh = host.alloc_str_with_hash(hash, str);
                table_insert(&mut self.entries, fresh);
                fresh
            },
        }
    }

    /// The entries, in no particular order.
    pub fn iter(&self) -> (r: Vec<HashStr<'host>>)
        ensures
            r@.len() == self@.len(),
            forall|i: int| 0 <= i < r@.len() ==> self@.contains(#[trigger] r@[i]@),
            forall|e: (u64, Seq<char>)|
                self@.contains(e) ==> exists|i: int| 0 <= i < r@.len() && #[trigger] r@[i]@ == e,
    {
        table_items(&self.entries)
    }

    pub fn len(&self) -> (r: usize)
        ensures
            r as nat == self@.len(),
    {
        table_len(&self.entries)
    }

    pub fn capacity(&self) -> (r: usize)
        ensures
            r as nat >= self@.len(),
    {
        table_capacity(&self.entries)
    }

    /// Makes room for `additional` more entries.
    pub fn reserve(&mut self, additional: usize)
        requires
            old(self)@.len() + additional <= isize::MAX / 256,
        ensures
            final(self)@ == old(self)@,
    {
        table_reserve(&mut self.entries, additional)
    }
}

/// Interning the same hash and content twice into one cache: the second call
/// returns an entry equal to the first and leaves the cache as the first call
/// left it.
pub proof fn lemma_intern_twice(
    before: Set<(u64, Seq<char>)>,
    key: (u64, Seq<char>),
    first: (u64, Seq<char>),
    middle: Set<(u64, Seq<char>)>,
    second: (u64, Seq<char>),
    after: Set<(u64, Seq<char>)>,
)
    requires
        first == key,
        middle == before.insert(first),
        second == key,
        after == middle.insert(second),
    ensures
        second == first,
        after == middle,
        after.len() == middle.len(),
{
    assert(middle.insert(second) =~= middle);
}

/// Two contents that share a hash are never taken for one another: after both
/// are interned the cache holds an entry for each, and a lookup of one never
/// returns the other.
pub proof fn lemma_collision_kept_apart(
    before: Set<(u64, Seq<char>)>,
    hash: u64,
    a: Seq<char>,
    b: Seq<char>,
    after: Set<(u64, Seq<char>)>,
)
    requires
        a != b,
        after == before.insert((hash, a)).insert((hash, b)),
    ensures
        after.contains((hash, a)),
        after.contains((hash, b)),
        (hash, a) != (hash, b),
{
}

/// A key absent from the first caches of a chain and interned at its end can
/// then be found in the last cache, equal to what the chain returned.
pub proof fn lemma_chain_then_get<'a, 'host>(
    first: Set<(u64, Seq<char>)>,
    second: Set<(u64, Seq<char>)>,
    last_before: Set<(u64, Seq<char>)>,
    key: (u64, Seq<char>),
    from_first: Presence<HashStr<'host>, HashedStr<'a>>,
    from_second: Presence<HashStr<'host>, HashedStr<'a>>,
    result: (u64, Seq<char>),
    last_after: Set<(u64, Seq<char>)>,
)
    requires
        !first.contains(key),
        !second.contains(key),
        from_first.found(first, key),
        from_second.key() == from_first.key(),
        from_first is Absent ==> from_second.found(second, from_first.key()),
        result == from_second.key(),
        from_second is Absent ==> last_after == last_before.insert(from_second.key()),
    ensures
        from_second is Absent,
        result == key,
        last_after.contains(key),
{
}

/// The outcome of a lookup: the entry found, or what is needed to look
/// further without hashing again.
#[derive(Debug)]
pub enum Presence<P, A> {
    Present(P),
    Absent(A),
}

impl<P, A> Presence<P, A> {
    pub fn get(self) -> (r: Option<P>)
        ensures
            r == (match self {
                Presence::Present(entry) => Some(entry),
                Presence::Absent(_) => None::<P>,
            }),
    {
        match self {
            Presence::Present(entry) => Some(entry),
            Presence::Absent(_) => None,
        }
    }
}

impl<'a, 'host> Presence<HashStr<'host>, HashedStr<'a>> {
    /// This is the outcome of looking `key` up in a cache holding `entries`.
    pub open spec fn found(self, entries: Set<(u64, Seq<char>)>, key: (u64, Seq<char>)) -> bool {
        match self {
            Presence::Present(entry) => entries.contains(key) && entry@ == key,
            Presence::Absent(hashed) => !entries.contains(key) && hashed@ == key,
        }
    }

    /// The key that this lookup was for.
    pub open spec fn key(self) -> (u64, Seq<char>) {
        match self {
            Presence::Present(entry) => entry@,
            Presence::Absent(hashed) => hashed@,
        }
    }

    /// Where absent so far, looks in `cache` with the carried hash.
    pub fn or_present_in<'new>(self, cache: &'a HashStrCache<'new>) -> (r: Presence<
        HashStr<'new>,
        HashedStr<'a>,
    >) where 'host: 'new
        ensures
            r.key() == self.key(),
            self is Present ==> r is Present,
            self is Absent ==> r.found(cache@, self.key()),
    {
        match self {
            Presence::Present(entry) => Presence::Present(entry),
            Presence::Absent(hashed) => cache.presence_str_with_hash(
                hashed.precomputed_hash(),
                hashed.as_str(),
            ),
        }
    }

    /// Where absent everywhere so far, interns into `cache` on `host`.
    pub fn or_intern_with<'new>(self, host: &'new HashStrHost, cache: &mut HashStrCache<'new>) -> (r:
        HashStr<'new>) where 'host: 'new
        ensures
            r@ == self.key(),
            self is Present ==> final(cache)@ == old(cache)@,
            self is Absent ==> final(cache)@ == old(cache)@.insert(self.key()),
    {
        match self {
            Presence::Present(entry) => entry,
            Presence::Absent(hashed) => cache.intern_str_with_hash(
                host,
                hashed.precomputed_hash(),
                hashed.as_str(),
            ),
        }
    }
}

} // verus!
