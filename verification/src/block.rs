//! Blocks and the integrity check of their transaction-set commitment.
//!
//! A header declares a commitment over the body's transactions; the checker
//! recomputes the Merkle root of the body's identity hashes, in body order,
//! and compares it with the declaration.

use vstd::prelude::*;

use crate::bytes::append_le8;
use crate::bytes::append_len_prefixed;
use crate::bytes::le8;
use crate::bytes::len_prefixed;
use crate::hash::hash_bytes;
use crate::hash::hex_of;
use crate::hash::keccak_of;
use crate::hash::to_hex;
use crate::hash::zero_digest;
use crate::hash::Hash256;
use crate::proof_codec::Proof;
use crate::transaction::SignedTransaction;
use crate::transaction::SignedTransactionView;

verus! {

/// A block header: the declared transaction-set commitment with the block's
/// position and provenance.
pub struct BlockHeader {
    pub prevhash: Hash256,
    pub timestamp: u64,
    pub height: u64,
    /// The declared commitment over the body's transactions.
    pub transactions_root: Hash256,
    pub proof: Proof,
}

/// The mathematical content of a `BlockHeader`.
pub struct BlockHeaderView {
    pub prevhash: Seq<u8>,
    pub timestamp: u64,
    pub height: u64,
    pub transactions_root: Seq<u8>,
    pub proof: Seq<u8>,
}

impl View for BlockHeader {
    type V = BlockHeaderView;

    open spec fn view(&self) -> BlockHeaderView {
        BlockHeaderView {
            prevhash: self.prevhash@,
            timestamp: self.timestamp,
            height: self.height,
            transactions_root: self.transactions_root@,
            proof: self.proof@,
        }
    }
}

/// Canonical bytes of a header.
pub open spec fn header_encoding(h: BlockHeaderView) -> Seq<u8> {
    len_prefixed(h.prevhash) + le8(h.timestamp) + le8(h.height) + len_prefixed(
        h.transactions_root,
    ) + len_prefixed(h.proof)
}

impl BlockHeader {
    /// The canonical bytes of this header.
    fn encode(&self) -> (r: Vec<u8>)
        ensures
            r@ == header_encoding(self@),
    {
        let mut out: Vec<u8> = Vec::new();
        append_len_prefixed(&mut out, self.prevhash.bytes.as_slice());
        append_le8(&mut out, self.timestamp);
        append_le8(&mut out, self.height);
        append_len_prefixed(&mut out, self.transactions_root.bytes.as_slice());
        append_len_prefixed(&mut out, self.proof.content.as_slice());
        proof {
            assert(out@ =~= header_encoding(self@));
        }
        out
    }

    /// The identity hash of the header.
    pub fn crypt_hash(&self) -> (r: Hash256)
        ensures
            r@ == keccak_of(header_encoding(self@)),
            r.wf(),
    {
        let encoded = self.encode();
        hash_bytes(encoded.as_slice())
    }

    /// The identity hash of the header, rendered as lowercase hex.
    pub fn crypt_hash_hex(&self) -> (r: String)
        ensures
            r@ == hex_of(keccak_of(header_encoding(self@))),
    {
        let hash = self.crypt_hash();
        to_hex(hash.bytes.as_slice())
    }
}

/// A block body: an ordered sequence of verified transactions.
pub struct BlockBody {
    pub transactions: Vec<SignedTransaction>,
}

impl View for BlockBody {
    type V = Seq<SignedTransactionView>;

    open spec fn view(&self) -> Seq<SignedTransactionView> {
        Seq::new(self.transactions@.len(), |i: int| self.transactions@[i]@)
    }
}

/// The identity hashes the body commits to, in body order.
pub open spec fn body_hashes(b: Seq<SignedTransactionView>) -> Seq<Seq<u8>> {
    Seq::new(b.len(), |i: int| b[i].tx_hash)
}

/// One combining step of the Merkle tree: the hash of two child digests,
/// concatenated in order.
pub open spec fn merkle_combine(a: Seq<u8>, b: Seq<u8>) -> Seq<u8> {
    keccak_of(a + b)
}

/// One level of the Merkle tree: adjacent leaves are paired in order, and an
/// odd trailing leaf is carried up unchanged.
pub open spec fn merkle_level(l: Seq<Seq<u8>>) -> Seq<Seq<u8>> {
    Seq::new((l.len() + 1) / 2, |j: int| if 2 * j + 1 < l.len() {
        merkle_combine(l[2 * j], l[2 * j + 1])
    } else {
        l[2 * j]
    })
}

/// The Merkle root of an ordered leaf sequence: the empty sequence maps to
/// the all-zero sentinel digest, a single leaf is its own root, and longer
/// sequences are reduced level by level.
pub open spec fn merkle_root_of(l: Seq<Seq<u8>>) -> Seq<u8>
    decreases l.len(),
{
    if l.len() == 0 {
        zero_digest()
    } else if l.len() == 1 {
        l[0]
    } else {
        merkle_root_of(merkle_level(l))
    }
}

/// The digests of a vector of hashes.
pub open spec fn hash_views(s: Seq<Hash256>) -> Seq<Seq<u8>> {
    Seq::new(s.len(), |i: int| s[i]@)
}

/// Combines two digests into their parent digest.
fn combine(a: &Hash256, b: &Hash256) -> (r: Hash256)
    ensures
        r@ == merkle_combine(a@, b@),
{
    let mut cat = a.to_vec();
    crate::bytes::append_bytes(&mut cat, b.bytes.as_slice());
    hash_bytes(cat.as_slice())
}

/// The Merkle root of the given leaves, in order.
pub fn merkle_root(leaves: Vec<Hash256>) -> (r: Hash256)
    ensures
        r@ == merkle_root_of(hash_views(leaves@)),
{
    if leaves.len() == 0 {
        return Hash256::zero();
    }
    let ghost orig: Seq<u8> = merkle_root_of(hash_views(leaves@));
    let mut level = leaves;
    while level.len() > 1
        invariant
            level@.len() >= 1,
            merkle_root_of(hash_views(level@)) == orig,
        decreases level@.len(),
    {
        let mut next: Vec<Hash256> = Vec::new();
        let mut i: usize = 0;
        while i < level.len()
            invariant
                level@.len() >= 2,
                i <= level@.len(),
                i % 2 == 0 || i == level@.len(),
                next@.len() == (i + 1) / 2,
                forall|j: int|
                    0 <= j < next@.len() ==> next@[j]@ == merkle_level(hash_views(level@))[j],
            decreases level@.len() - i,
        {
            if i + 1 < level.len() {
                let parent = combine(&level[i], &level[i + 1]);
                next.push(parent);
                i = i + 2;
            } else {
                let carried = level[i].duplicate();
                next.push(carried);
                i = level.len();
            }
        }
        proof {
            assert(hash_views(next@) =~= merkle_level(hash_views(level@)));
        }
        level = next;
    }
    level[0].duplicate()
}

impl BlockBody {
    /// The ordered transactions of the body.
    pub fn get_transactions(&self) -> (r: &Vec<SignedTransaction>)
        ensures
            r@.len() == self@.len(),
            forall|i: int| 0 <= i < r@.len() ==> r@[i]@ == self@[i],
    {
        &self.transactions
    }

    /// The identity hash of each contained transaction, in body order.
    pub fn transaction_hashes(&self) -> (r: Vec<Hash256>)
        ensures
            r@.len() == self@.len(),
            forall|i: int| 0 <= i < r@.len() ==> r@[i]@ == self@[i].tx_hash,
    {
        let mut out: Vec<Hash256> = Vec::new();
        let mut i: usize = 0;
        while i < self.transactions.len()
            invariant
                i <= self.transactions@.len(),
                out@.len() == i,
                forall|j: int| 0 <= j < i ==> out@[j]@ == self@[j].tx_hash,
            decreases self.transactions@.len() - i,
        {
            let h = self.transactions[i].crypt_hash();
            out.push(h);
            i = i + 1;
        }
        out
    }

    /// The Merkle root over the body's transaction hashes, in body order.
    /// The empty body yields the fixed empty-sequence sentinel digest.
    pub fn transactions_root(&self) -> (r: Hash256)
        ensures
            r@ == merkle_root_of(body_hashes(self@)),
    {
        let hashes = self.transaction_hashes();
        proof {
            assert(hash_views(hashes@) =~= body_hashes(self@));
        }
        merkle_root(hashes)
    }
}

/// A block: a header with its declared commitment, and the body it commits
/// to.
pub struct Block {
    pub version: u32,
    pub header: BlockHeader,
    pub body: BlockBody,
}

/// The mathematical content of a `Block`.
pub struct BlockView {
    pub version: u32,
    pub header: BlockHeaderView,
    pub body: Seq<SignedTransactionView>,
}

impl View for Block {
    type V = BlockView;

    open spec fn view(&self) -> BlockView {
        BlockView { version: self.version, header: self.header@, body: self.body@ }
    }
}

impl Block {
    /// The block's header.
    pub fn get_header(&self) -> (r: &BlockHeader)
        ensures
            r@ == self@.header,
    {
        &self.header
    }

    /// The block's body.
    pub fn get_body(&self) -> (r: &BlockBody)
        ensures
            r@ == self@.body,
    {
        &self.body
    }

    /// The identity hash of the block: the hash of its header.
    pub fn crypt_hash(&self) -> (r: Hash256)
        ensures
            r@ == keccak_of(header_encoding(self@.header)),
            r.wf(),
    {
        self.header.crypt_hash()
    }

    /// The identity hash of the block, rendered as lowercase hex.
    pub fn crypt_hash_hex(&self) -> (r: String)
        ensures
            r@ == hex_of(keccak_of(header_encoding(self@.header))),
    {
        self.header.crypt_hash_hex()
    }

    /// Whether the header's declared commitment equals the Merkle root of
    /// the body's transaction hashes, in body order. This checks structural
    /// consistency of the committed transaction set only: it validates no
    /// individual signature.
    pub fn check_hash(&self) -> (r: bool)
        ensures
            r == (self@.header.transactions_root == merkle_root_of(body_hashes(self@.body))),
    {
        let root = self.body.transactions_root();
        root.eq_hash(&self.header.transactions_root)
    }
}

} // verus!
