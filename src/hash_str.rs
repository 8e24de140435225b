use vstd::prelude::*;
use crate::hashing::{fixed_hash_of, make_hash};
use vstd::string::StringSliceAdditionalSpecFns;
use vstd::utf8::{decode_utf8, encode_utf8, encode_utf8_decode_utf8, valid_utf8};
use vstd::bytes::{lemma_auto_spec_u64_to_from_le_bytes, spec_u64_from_le_bytes, spec_u64_to_le_bytes};
use vstd::endian::{endianness, Endian};
use core::cmp::Ordering;

verus! {

/// The number of bytes of the hash at the start of an encoded string.
pub const SIZE_HASH: usize = 8;

/// The bytes of `x` in the byte order of the machine.
pub open spec fn ne_bytes_of(x: u64) -> Seq<u8> {
    match endianness() {
        Endian::Little => spec_u64_to_le_bytes(x),
        Endian::Big => spec_u64_to_le_bytes(x).reverse(),
    }
}

/// The integer that eight bytes stand for in the byte order of the machine.
pub open spec fn ne_u64_of(b: Seq<u8>) -> u64 {
    match endianness() {
        Endian::Little => spec_u64_from_le_bytes(b),
        Endian::Big => spec_u64_from_le_bytes(b.reverse()),
    }
}

/// The encoding of a hash and a content: the hash's eight bytes, then the
/// content's UTF-8 bytes.
pub open spec fn encoded(v: (u64, Seq<char>)) -> Seq<u8> {
    ne_bytes_of(v.0) + encode_utf8(v.1)
}

/// The content bytes of an encoding of at least eight bytes.
pub open spec fn tail_of(b: Seq<u8>) -> Seq<u8> {
    b.subrange(SIZE_HASH as int, b.len() as int)
}

/// What a valid encoding decodes to.
pub open spec fn decoded(b: Seq<u8>) -> (u64, Seq<char>) {
    (ne_u64_of(b.subrange(0, SIZE_HASH as int)), decode_utf8(tail_of(b)))
}

#[verifier::external_type_specification]
#[verifier::external_body]
pub struct ExUtf8Error(core::str::Utf8Error);

/// Relies on `u64::to_ne_bytes`: the integer's bytes in native byte order.
#[verifier::external_body]
fn u64_to_ne_bytes(x: u64) -> (r: [u8; 8])
    ensures
        r@ == ne_bytes_of(x),
{
    x.to_ne_bytes()
}

/// Relies on `u64::from_ne_bytes`: the integer read in native byte order.
#[verifier::external_body]
fn u64_from_ne_bytes(b: [u8; 8]) -> (r: u64)
    ensures
        r == ne_u64_of(b@),
{
    u64::from_ne_bytes(b)
}

/// Relies on `core::str::from_utf8`: the bytes as a string when they are
/// valid UTF-8, an error otherwise.
#[verifier::external_body]
fn str_from_utf8<'b>(v: &'b [u8]) -> (r: Result<&'b str, core::str::Utf8Error>)
    ensures
        r is Ok <==> valid_utf8(v@),
        r is Ok ==> r->Ok_0@ == decode_utf8(v@),
{
    core::str::from_utf8(v)
}

/// Why bytes are not an encoded string.
#[derive(Debug)]
pub enum RefFromBytesError {
    /// Fewer than eight bytes.
    TooShort,
    /// The bytes after the hash are not valid UTF-8.
    UTF8(core::str::Utf8Error),
}

/// Decoding inverts encoding, for every hash and content.
pub proof fn lemma_decode_encoded(v: (u64, Seq<char>))
    ensures
        encoded(v).len() >= SIZE_HASH,
        valid_utf8(tail_of(encoded(v))),
        decoded(encoded(v)) == v,
{
    lemma_auto_spec_u64_to_from_le_bytes();
    encode_utf8_decode_utf8(v.1);
    vstd::utf8::encode_utf8_valid_utf8(v.1);
    let h = ne_bytes_of(v.0);
    let le = spec_u64_to_le_bytes(v.0);
    assert(le.reverse().reverse() =~= le);
    assert(h.len() == SIZE_HASH);
    assert(encoded(v).subrange(0, SIZE_HASH as int) =~= h);
    assert(tail_of(encoded(v)) =~= encode_utf8(v.1));
}

/// Content equality of two strings.
pub fn str_eq(a: &str, b: &str) -> (r: bool)
    ensures
        r == (a@ == b@),
{
    let ab = a.as_bytes();
    let bb = b.as_bytes();
    proof {
        encode_utf8_decode_utf8(a@);
        encode_utf8_decode_utf8(b@);
    }
    if ab.len() != bb.len() {
        return false;
    }
    let mut i: usize = 0;
    while i < ab.len()
        invariant
            ab@ == a.spec_bytes(),
            bb@ == b.spec_bytes(),
            ab@.len() == bb@.len(),
            i <= ab@.len(),
            ab@.subrange(0, i as int) == bb@.subrange(0, i as int),
        decreases ab@.len() - i,
    {
        if ab[i] != bb[i] {
            return false;
        }
        proof {
            assert(ab@.subrange(0, i + 1) == ab@.subrange(0, i as int).push(ab@[i as int]));
            assert(bb@.subrange(0, i + 1) == bb@.subrange(0, i as int).push(bb@[i as int]));
        }
        i = i + 1;
    }
    proof {
        assert(ab@ == ab@.subrange(0, ab@.len() as int));
        assert(bb@ == bb@.subrange(0, bb@.len() as int));
    }
    true
}

/// A canonical string: content borrowed from whatever owns its bytes (a
/// host, an owned `HashString`, or a byte buffer), with the hash computed
/// once when it was made. Copying it copies the reference, not the bytes.
#[derive(Clone, Copy, Debug)]
pub struct HashStr<'a> {
    hash: u64,
    str: &'a str,
}

impl<'a> View for HashStr<'a> {
    type V = (u64, Seq<char>);

    closed spec fn view(&self) -> (u64, Seq<char>) {
        (self.hash, self.str@)
    }
}

impl<'a> HashStr<'a> {
    pub fn precomputed_hash(&self) -> (r: u64)
        ensures
            r == self@.0,
    {
        self.hash
    }

    pub fn as_str(&self) -> (r: &'a str)
        ensures
            r@ == self@.1,
    {
        self.str
    }

    /// A hash and a string, taken as they are.
    pub fn from_parts(hash: u64, str: &'a str) -> (r: HashStr<'a>)
        ensures
            r@ == (hash, str@),
    {
        HashStr { hash, str }
    }

    /// Whether this string has the given hash and content.
    pub fn matches(&self, hash: u64, key: &str) -> (r: bool)
        ensures
            r == (self@ == (hash, key@)),
    {
        self.hash == hash && str_eq(self.str, key)
    }

    /// The encoding: the hash in native byte order, then the content bytes.
    pub fn as_hash_str_bytes(&self) -> (r: Vec<u8>)
        ensures
            r@ == encoded(self@),
    {
        let head = u64_to_ne_bytes(self.hash);
        let body = self.str.as_bytes();
        let mut out: Vec<u8> = Vec::new();
        let mut i: usize = 0;
        while i < SIZE_HASH
            invariant
                i <= SIZE_HASH,
                head@.len() == SIZE_HASH,
                out@ == head@.subrange(0, i as int),
            decreases SIZE_HASH - i,
        {
            out.push(head[i]);
            proof {
                assert(head@.subrange(0, i + 1) =~= head@.subrange(0, i as int).push(head@[i as int]));
            }
            i = i + 1;
        }
        let mut j: usize = 0;
        while j < body.len()
            invariant
                j <= body@.len(),
                head@.len() == SIZE_HASH,
                body@ == encode_utf8(self.str@),
                out@ == head@ + body@.subrange(0, j as int),
            decreases body@.len() - j,
        {
            out.push(body[j]);
            proof {
                assert(body@.subrange(0, j + 1) =~= body@.subrange(0, j as int).push(body@[j as int]));
            }
            j = j + 1;
        }
        proof {
            assert(head@.subrange(0, SIZE_HASH as int) =~= head@);
            assert(body@.subrange(0, body@.len() as int) =~= body@);
        }
        out
    }

    /// Reads an encoded string in place: eight bytes of hash in native byte
    /// order, then UTF-8 content. Copies nothing.
    pub fn ref_from_bytes(bytes: &'a [u8]) -> (r: Result<HashStr<'a>, RefFromBytesError>)
        ensures
            bytes@.len() < SIZE_HASH ==> r is Err && r->Err_0 is TooShort,
            bytes@.len() >= SIZE_HASH && !valid_utf8(tail_of(bytes@)) ==> r is Err
                && r->Err_0 is UTF8,
            bytes@.len() >= SIZE_HASH && valid_utf8(tail_of(bytes@)) ==> r is Ok && r->Ok_0@
                == decoded(bytes@),
    {
        if bytes.len() < SIZE_HASH {
            return Err(RefFromBytesError::TooShort);
        }
        let (head, tail) = bytes.split_at(SIZE_HASH);
        let arr: [u8; 8] = [head[0], head[1], head[2], head[3], head[4], head[5], head[6], head[7]];
        proof {
            assert(arr@ =~= bytes@.subrange(0, SIZE_HASH as int));
        }
        let hash = u64_from_ne_bytes(arr);
        match str_from_utf8(tail) {
            Ok(str) => Ok(HashStr { hash, str }),
            Err(e) => Err(RefFromBytesError::UTF8(e)),
        }
    }

    /// A free-standing string, owned by the caller and by no host.
    pub fn anonymous(value: String) -> (r: HashString)
        ensures
            r@ == (fixed_hash_of(value@), value@),
    {
        let hash = make_hash(value.as_str());
        HashString { hash, string: value }
    }
}

/// A string's hash is the one it was built with, at every read: no method
/// changes it.
pub proof fn lemma_hash_stable(x: HashStr, first: u64, second: u64)
    requires
        first == x@.0,
        second == x@.0,
    ensures
        first == second,
{
}

impl<'a> PartialEq for HashStr<'a> {
    /// Equal hashes and equal contents; the hashes are compared first.
    fn eq(&self, other: &HashStr<'a>) -> (r: bool) {
        self.hash == other.hash && str_eq(self.str, other.str)
    }
}

impl<'a> vstd::std_specs::cmp::PartialEqSpecImpl for HashStr<'a> {
    open spec fn obeys_eq_spec() -> bool {
        true
    }

    open spec fn eq_spec(&self, other: &HashStr<'a>) -> bool {
        self@ == other@
    }
}

impl<'a> Eq for HashStr<'a> {
}

/// Lexicographic order of byte strings: the first differing byte decides,
/// and a proper prefix comes first.
pub open spec fn bytes_cmp(a: Seq<u8>, b: Seq<u8>) -> Ordering
    decreases a.len(),
{
    if a.len() == 0 && b.len() == 0 {
        Ordering::Equal
    } else if a.len() == 0 {
        Ordering::Less
    } else if b.len() == 0 {
        Ordering::Greater
    } else if a[0] < b[0] {
        Ordering::Less
    } else if a[0] > b[0] {
        Ordering::Greater
    } else {
        bytes_cmp(a.drop_first(), b.drop_first())
    }
}

/// Compares two strings by their UTF-8 bytes, which orders them as `str` does.
pub fn cmp_content(a: &str, b: &str) -> (r: Ordering)
    ensures
        r == bytes_cmp(a.spec_bytes(), b.spec_bytes()),
{
    let ab = a.as_bytes();
    let bb = b.as_bytes();
    let mut i: usize = 0;
    proof {
        assert(ab@.skip(0) =~= ab@);
        assert(bb@.skip(0) =~= bb@);
    }
    while i < ab.len() && i < bb.len()
        invariant
            ab@ == a.spec_bytes(),
            bb@ == b.spec_bytes(),
            i <= ab@.len(),
            i <= bb@.len(),
            bytes_cmp(ab@, bb@) == bytes_cmp(ab@.skip(i as int), bb@.skip(i as int)),
        decreases ab@.len() - i,
    {
        if ab[i] < bb[i] {
            return Ordering::Less;
        }
        if ab[i] > bb[i] {
            return Ordering::Greater;
        }
        proof {
            assert(ab@.skip(i as int).drop_first() =~= ab@.skip(i + 1));
            assert(bb@.skip(i as int).drop_first() =~= bb@.skip(i + 1));
        }
        i = i + 1;
    }
    if ab.len() == bb.len() {
        Ordering::Equal
    } else if i == ab.len() {
        Ordering::Less
    } else {
        Ordering::Greater
    }
}

impl<'a> PartialOrd for HashStr<'a> {
    /// Orders by content alone.
    fn partial_cmp(&self, other: &HashStr<'a>) -> (r: Option<Ordering>) {
        Some(cmp_content(self.str, other.str))
    }
}

impl<'a> vstd::std_specs::cmp::PartialOrdSpecImpl for HashStr<'a> {
    open spec fn obeys_partial_cmp_spec() -> bool {
        true
    }

    open spec fn partial_cmp_spec(&self, other: &HashStr<'a>) -> Option<Ordering> {
        Some(bytes_cmp(encode_utf8(self@.1), encode_utf8(other@.1)))
    }
}

impl<'a> core::hash::Hash for HashStr<'a> {
    /// Relies on `Hasher::write_u64`: feeds the precomputed hash alone to
    /// the hasher, so that a hash map need not hash the content again.
    #[verifier::external_body]
    fn hash<H: core::hash::Hasher>(&self, state: &mut H) {
        state.write_u64(self.hash);
    }
}

/// An owned string with its precomputed hash, which belongs to no host.
#[derive(Clone, Debug)]
pub struct HashString {
    hash: u64,
    string: String,
}

impl View for HashString {
    type V = (u64, Seq<char>);

    closed spec fn view(&self) -> (u64, Seq<char>) {
        (self.hash, self.string@)
    }
}

impl HashString {
    pub fn precomputed_hash(&self) -> (r: u64)
        ensures
            r == self@.0,
    {
        self.hash
    }

    pub fn as_str(&self) -> (r: &str)
        ensures
            r@ == self@.1,
    {
        self.string.as_str()
    }

    /// A borrowed view of this string.
    pub fn as_hash_str(&self) -> (r: HashStr<'_>)
        ensures
            r@ == self@,
    {
        HashStr { hash: self.hash, str: self.string.as_str() }
    }
}

} // verus!
