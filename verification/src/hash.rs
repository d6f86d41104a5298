//! The hash provider and the fixed-width digest type.
//!
//! Every identity hash in this crate is the keccak-256 digest of a value's
//! canonical byte encoding.

use vstd::prelude::*;

use crate::bytes::bytes_eq;
use crate::bytes::copy_bytes;

verus! {

/// The digest width of the hash provider, in bytes.
pub const HASH_BYTES_LEN: usize = 32;

/// Named result of the keccak-256 digest: a pure function of the input bytes.
pub uninterp spec fn keccak_of(b: Seq<u8>) -> Seq<u8>;

/// Relies on tiny_keccak's `Keccak::v256` with `Hasher::update` and
/// `Hasher::finalize`: a deterministic, keyless digest of the input bytes,
/// 32 bytes wide.
#[verifier::external_body]
pub(crate) fn keccak256(data: &[u8]) -> (r: Vec<u8>)
    ensures
        r@ == keccak_of(data@),
        r@.len() == 32,
{
    let mut hasher = tiny_keccak::Keccak::v256();
    tiny_keccak::Hasher::update(&mut hasher, data);
    let mut out = [0u8; 32];
    tiny_keccak::Hasher::finalize(hasher, &mut out);
    out.to_vec()
}

/// A fixed-width digest. The identity of every artifact in this crate is such
/// a digest of its canonical bytes.
#[derive(Debug)]
pub struct Hash256 {
    pub bytes: Vec<u8>,
}

impl View for Hash256 {
    type V = Seq<u8>;

    open spec fn view(&self) -> Seq<u8> {
        self.bytes@
    }
}

impl Hash256 {
    /// A digest is well formed when it has the provider's fixed width.
    pub open spec fn wf(&self) -> bool {
        self@.len() == HASH_BYTES_LEN
    }

    /// Wraps 32 raw digest bytes.
    pub fn from_bytes(bytes: Vec<u8>) -> (r: Hash256)
        requires
            bytes@.len() == HASH_BYTES_LEN,
        ensures
            r@ == bytes@,
            r.wf(),
    {
        Hash256 { bytes }
    }

    /// An independent copy of the digest.
    pub fn duplicate(&self) -> (r: Hash256)
        ensures
            r@ == self@,
    {
        Hash256 { bytes: copy_bytes(self.bytes.as_slice()) }
    }

    /// The raw digest bytes, copied out.
    pub fn to_vec(&self) -> (r: Vec<u8>)
        ensures
            r@ == self@,
    {
        copy_bytes(self.bytes.as_slice())
    }

    /// Byte-for-byte digest equality.
    pub fn eq_hash(&self, other: &Hash256) -> (r: bool)
        ensures
            r == (self@ == other@),
    {
        bytes_eq(self.bytes.as_slice(), other.bytes.as_slice())
    }

    /// The all-zero digest: the sentinel root of an empty leaf sequence.
    pub fn zero() -> (r: Hash256)
        ensures
            r@ == zero_digest(),
            r.wf(),
    {
        let mut bytes: Vec<u8> = Vec::new();
        let mut i: usize = 0;
        while i < 32
            invariant
                i <= 32,
                bytes@.len() == i,
                forall|j: int| 0 <= j < i ==> bytes@[j] == 0u8,
            decreases 32 - i,
        {
            bytes.push(0u8);
            i = i + 1;
        }
        proof {
            assert(bytes@ =~= zero_digest());
        }
        Hash256 { bytes }
    }
}

/// The all-zero 32-byte sequence.
pub open spec fn zero_digest() -> Seq<u8> {
    Seq::new(32, |i: int| 0u8)
}

/// Hashes arbitrary bytes into a digest.
pub fn hash_bytes(data: &[u8]) -> (r: Hash256)
    ensures
        r@ == keccak_of(data@),
        r.wf(),
{
    Hash256 { bytes: keccak256(data) }
}

/// The character standing for one hex nibble.
pub open spec fn hex_digit(n: u8) -> char {
    if n == 0 {
        '0'
    } else if n == 1 {
        '1'
    } else if n == 2 {
        '2'
    } else if n == 3 {
        '3'
    } else if n == 4 {
        '4'
    } else if n == 5 {
        '5'
    } else if n == 6 {
        '6'
    } else if n == 7 {
        '7'
    } else if n == 8 {
        '8'
    } else if n == 9 {
        '9'
    } else if n == 10 {
        'a'
    } else if n == 11 {
        'b'
    } else if n == 12 {
        'c'
    } else if n == 13 {
        'd'
    } else if n == 14 {
        'e'
    } else {
        'f'
    }
}

/// Lowercase hex rendering of a byte sequence, two characters per byte.
pub open spec fn hex_of(b: Seq<u8>) -> Seq<char>
    decreases b.len(),
{
    if b.len() == 0 {
        Seq::empty()
    } else {
        seq![hex_digit(b[0] / 16), hex_digit(b[0] % 16)] + hex_of(b.drop_first())
    }
}

/// Relies on std's `String::push`: appends the given character to the end of
/// the string.
#[verifier::external_body]
fn push_char(s: &mut String, c: char)
    ensures
        final(s)@ == old(s)@ + seq![c],
{
    s.push(c);
}

fn hex_digit_char(n: u8) -> (c: char)
    requires
        n < 16,
    ensures
        c == hex_digit(n),
{
    match n {
        0 => '0',
        1 => '1',
        2 => '2',
        3 => '3',
        4 => '4',
        5 => '5',
        6 => '6',
        7 => '7',
        8 => '8',
        9 => '9',
        10 => 'a',
        11 => 'b',
        12 => 'c',
        13 => 'd',
        14 => 'e',
        _ => 'f',
    }
}

/// Lowercase hex rendering of a byte slice.
pub fn to_hex(data: &[u8]) -> (r: String)
    ensures
        r@ == hex_of(data@),
{
    let mut r = String::new();
    let mut i: usize = 0;
    proof {
        assert(data@.skip(0) == data@);
    }
    while i < data.len()
        invariant
            i <= data@.len(),
            hex_of(data@) =~= r@ + hex_of(data@.skip(i as int)),
        decreases data@.len() - i,
    {
        let byte = data[i];
        proof {
            assert(data@.skip(i as int)[0] == data@[i as int]);
            assert(data@.skip(i as int).drop_first() =~= data@.skip(i as int + 1));
        }
        push_char(&mut r, hex_digit_char(byte / 16));
        push_char(&mut r, hex_digit_char(byte % 16));
        i = i + 1;
    }
    proof {
        assert(hex_of(data@.skip(data@.len() as int)) =~= Seq::<char>::empty());
    }
    r
}

} // verus!
