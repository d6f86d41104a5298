//! The consensus proof artifact and its lossless byte codec.
//!
//! A proof is opaque to this pipeline: its whole contract is that encoding
//! and decoding lose nothing. The wire form is the RLP encoding of the
//! proof's bytes as one byte string.

use vstd::prelude::*;

use crate::bytes::bytes_eq;
use crate::bytes::copy_bytes;

verus! {

/// An opaque consensus artifact carried alongside blocks.
pub struct Proof {
    pub content: Vec<u8>,
}

impl View for Proof {
    type V = Seq<u8>;

    open spec fn view(&self) -> Seq<u8> {
        self.content@
    }
}

/// Minimal big-endian bytes of a non-negative integer: no leading zero, and
/// empty for zero.
pub open spec fn be_min(n: int) -> Seq<u8>
    decreases n,
{
    if n <= 0 {
        Seq::empty()
    } else {
        be_min(n / 256) + seq![(n % 256) as u8]
    }
}

/// The RLP encoding of a byte string: a single byte below 0x80 is its own
/// encoding; up to 55 bytes are prefixed with 0x80 plus the length; longer
/// strings are prefixed with 0xb7 plus the width of the length, then the
/// length's minimal big-endian bytes.
pub open spec fn rlp_str_of(b: Seq<u8>) -> Seq<u8> {
    if b.len() == 1 && b[0] < 0x80 {
        b
    } else if b.len() <= 55 {
        seq![(0x80 + b.len()) as u8] + b
    } else {
        seq![(0xb7 + be_min(b.len() as int).len()) as u8] + be_min(b.len() as int) + b
    }
}

/// Relies on rlp's `encode` through the `Encodable` impl for `Vec<u8>`
/// (`encode_value`): it emits exactly the byte-string encoding stated by
/// `rlp_str_of`. The crate holds a long string's length in 32 bits, so only
/// payloads within that width are handed to it.
#[verifier::external_body]
fn rlp_encode_bytes(v: &Vec<u8>) -> (r: Vec<u8>)
    requires
        v@.len() <= 0xffffffff,
    ensures
        r@ == rlp_str_of(v@),
{
    rlp::encode(v).to_vec()
}

/// Relies on rlp's `decode` for `Vec<u8>` (`decode_value`): on input that is
/// exactly the byte-string encoding of some payload, it returns that
/// payload. The payload is unique because the encoding's first byte fixes
/// its shape and length.
#[verifier::external_body]
fn rlp_decode_bytes(b: &[u8]) -> (r: Option<Vec<u8>>)
    ensures
        match r {
            Some(v) => v@.len() <= b@.len() && (forall|w: Seq<u8>| b@ == rlp_str_of(w) ==> v@
                == w),
            None => forall|w: Seq<u8>| b@ != rlp_str_of(w),
        },
{
    match rlp::decode::<Vec<u8>>(b) {
        Ok(v) => Some(v),
        Err(_) => None,
    }
}

/// Why proof bytes were rejected.
#[derive(Clone, Copy, PartialEq, Eq, Structural, Debug)]
pub enum ProofError {
    /// The bytes are not the encoding of any proof.
    MalformedProof,
}

impl Proof {
    /// Wraps raw proof bytes.
    pub fn new(content: Vec<u8>) -> (r: Proof)
        ensures
            r@ == content@,
    {
        Proof { content }
    }

    /// An independent copy with the same content.
    pub fn duplicate(&self) -> (r: Proof)
        ensures
            r@ == self@,
    {
        Proof { content: copy_bytes(self.content.as_slice()) }
    }

    /// Byte encoding of the proof; total for any proof whose content stays
    /// within the codec's 32-bit length width.
    pub fn encode(&self) -> (r: Vec<u8>)
        requires
            self@.len() <= 0xffffffff,
        ensures
            r@ == rlp_str_of(self@),
    {
        rlp_encode_bytes(&self.content)
    }

    /// Decodes proof bytes, failing with `MalformedProof` exactly when the
    /// bytes are not the encoding of any proof.
    pub fn decode(b: &[u8]) -> (r: Result<Proof, ProofError>)
        requires
            b@.len() <= 0xffffffff,
        ensures
            match r {
                Ok(p) => b@ == rlp_str_of(p@) && forall|w: Seq<u8>| b@ == rlp_str_of(w) ==> p@
                    == w,
                Err(e) => e == ProofError::MalformedProof && forall|w: Seq<u8>| b@ != rlp_str_of(
                    w,
                ),
            },
    {
        match rlp_decode_bytes(b) {
            Some(v) => {
                let encoded = rlp_encode_bytes(&v);
                if bytes_eq(encoded.as_slice(), b) {
                    Ok(Proof { content: v })
                } else {
                    Err(ProofError::MalformedProof)
                }
            },
            None => Err(ProofError::MalformedProof),
        }
    }
}

/// The number of minimal big-endian bytes of a machine-width length: at
/// least one for a positive value and at most eight below 2^64.
proof fn lemma_be_min_len8(n: int)
    requires
        0 <= n <= 0xffffffffffffffff,
    ensures
        n > 0 ==> 1 <= be_min(n).len() <= 8,
{
    let n1 = n / 256;
    let n2 = n1 / 256;
    let n3 = n2 / 256;
    let n4 = n3 / 256;
    let n5 = n4 / 256;
    let n6 = n5 / 256;
    let n7 = n6 / 256;
    assert(n7 <= 0xff);
    assert(n7 / 256 == 0);
    assert(be_min(0).len() == 0);
    assert(be_min(n7).len() <= 1);
    assert(be_min(n6).len() <= 2);
    assert(be_min(n5).len() <= 3);
    assert(be_min(n4).len() <= 4);
    assert(be_min(n3).len() <= 5);
    assert(be_min(n2).len() <= 6);
    assert(be_min(n1).len() <= 7);
    assert(be_min(n).len() <= 8);
}

/// The byte encoding of a byte string determines the string: the first byte
/// of the encoding fixes its shape and length, and the tail carries the
/// string itself. This is what makes decoding after encoding lossless.
pub proof fn lemma_rlp_str_injective(a: Seq<u8>, b: Seq<u8>)
    requires
        a.len() <= 0xffffffffffffffff,
        b.len() <= 0xffffffffffffffff,
        rlp_str_of(a) == rlp_str_of(b),
    ensures
        a == b,
{
    lemma_be_min_len8(a.len() as int);
    lemma_be_min_len8(b.len() as int);
    let ea = rlp_str_of(a);
    let eb = rlp_str_of(b);
    lemma_rlp_shape(a);
    lemma_rlp_shape(b);
    if a.len() == 1 && a[0] < 0x80 {
        assert(eb[0] == ea[0] && ea[0] < 0x80);
        assert(b.len() == 1 && b[0] < 0x80);
        assert(a =~= b);
    } else if a.len() <= 55 {
        assert(0x80 <= ea[0] <= 0xb7);
        assert(b.len() != 1 || b[0] >= 0x80);
        assert(b.len() <= 55);
        assert(a.len() == b.len());
        assert(a =~= ea.subrange(1, ea.len() as int));
        assert(b =~= eb.subrange(1, eb.len() as int));
        assert(a =~= b);
    } else {
        assert(0xb8 <= ea[0] <= 0xbf);
        assert(b.len() > 55);
        let ka = be_min(a.len() as int).len() as int;
        let kb = be_min(b.len() as int).len() as int;
        assert(ka == kb);
        assert(ea.len() == 1 + ka + a.len());
        assert(eb.len() == 1 + kb + b.len());
        assert(a.len() == b.len());
        assert(a =~= ea.subrange(1 + ka, ea.len() as int));
        assert(b =~= eb.subrange(1 + kb, eb.len() as int));
        assert(a =~= b);
    }
}

/// The shape of a byte-string encoding: its length, its first byte, and
/// where the string itself stands in it.
proof fn lemma_rlp_shape(x: Seq<u8>)
    requires
        x.len() <= 0xffffffffffffffff,
    ensures
        (x.len() == 1 && x[0] < 0x80) ==> rlp_str_of(x) == x,
        (!(x.len() == 1 && x[0] < 0x80) && x.len() <= 55) ==> rlp_str_of(x).len() == x.len() + 1
            && rlp_str_of(x)[0] == 0x80 + x.len() && rlp_str_of(x).subrange(
            1,
            rlp_str_of(x).len() as int,
        ) == x,
        x.len() > 55 ==> rlp_str_of(x).len() == 1 + be_min(x.len() as int).len() + x.len()
            && rlp_str_of(x)[0] == 0xb7 + be_min(x.len() as int).len() && rlp_str_of(x).subrange(
            1 + be_min(x.len() as int).len() as int,
            rlp_str_of(x).len() as int,
        ) == x && 1 <= be_min(x.len() as int).len() <= 8,
{
    lemma_be_min_len8(x.len() as int);
    if x.len() == 1 && x[0] < 0x80 {
    } else if x.len() <= 55 {
        assert(rlp_str_of(x).subrange(1, rlp_str_of(x).len() as int) =~= x);
    } else {
        assert(rlp_str_of(x).subrange(
            1 + be_min(x.len() as int).len() as int,
            rlp_str_of(x).len() as int,
        ) =~= x);
    }
}

} // verus!
