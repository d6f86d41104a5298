//! Batched verification requests for the external verifier pool.
//!
//! A per-transaction request copies everything the pool needs to confirm a
//! signature; a per-block request batches them in body order under a
//! correlating request id.

use vstd::prelude::*;

use crate::block::Block;
use crate::bytes::copy_bytes;
use crate::crypto::Scheme;
use crate::hash::Hash256;
use crate::transaction::tx_hash_of;
use crate::transaction::utx_hash_of;
use crate::transaction::SignedTransactionView;
use crate::transaction::UnverifiedTransaction;
use crate::transaction::UnverifiedTransactionView;

verus! {

/// A correlatable verification-request record for one transaction.
pub struct VerifyTxReq {
    /// The inner transaction's identity hash: the digest that was signed.
    pub hash: Hash256,
    /// The scheme tag the signature claims.
    pub crypto: Scheme,
    /// The claimed signature bytes.
    pub signature: Vec<u8>,
    /// The inner transaction's uniqueness string.
    pub nonce: String,
    /// The inner transaction's transfer amount.
    pub value: Vec<u8>,
    /// The inner transaction's chain identifier.
    pub chain_id: u32,
    /// The inner transaction's resource budget.
    pub quota: u64,
    /// The height after which the request can be discarded.
    pub valid_until_block: u64,
    /// The outer artifact's own identity hash: the id verdicts are keyed by.
    pub tx_hash: Hash256,
    /// The signer, filled only when already known.
    pub signer: Option<Vec<u8>>,
}

/// The mathematical content of a `VerifyTxReq`.
pub struct VerifyTxReqView {
    pub hash: Seq<u8>,
    pub crypto: Scheme,
    pub signature: Seq<u8>,
    pub nonce: Seq<char>,
    pub value: Seq<u8>,
    pub chain_id: u32,
    pub quota: u64,
    pub valid_until_block: u64,
    pub tx_hash: Seq<u8>,
    pub signer: Option<Seq<u8>>,
}

impl View for VerifyTxReq {
    type V = VerifyTxReqView;

    open spec fn view(&self) -> VerifyTxReqView {
        VerifyTxReqView {
            hash: self.hash@,
            crypto: self.crypto,
            signature: self.signature@,
            nonce: self.nonce@,
            value: self.value@,
            chain_id: self.chain_id,
            quota: self.quota,
            valid_until_block: self.valid_until_block,
            tx_hash: self.tx_hash@,
            signer: match self.signer {
                Some(s) => Some(s@),
                None => None,
            },
        }
    }
}

/// The request extracted from an unverified artifact: signer left unset.
pub open spec fn req_of_utx(u: UnverifiedTransactionView) -> VerifyTxReqView {
    VerifyTxReqView {
        hash: tx_hash_of(u.transaction),
        crypto: u.crypto,
        signature: u.signature,
        nonce: u.transaction.nonce,
        value: u.transaction.value,
        chain_id: u.transaction.chain_id,
        quota: u.transaction.quota,
        valid_until_block: u.transaction.valid_until_block,
        tx_hash: utx_hash_of(u),
        signer: None,
    }
}

/// The request for a verified transaction inside a block: the signer the
/// block producer already asserts is injected, sparing the pool a recovery
/// from scratch.
pub open spec fn req_of_signed(st: SignedTransactionView) -> VerifyTxReqView {
    VerifyTxReqView { signer: Some(st.signer), ..req_of_utx(st.transaction_with_sig) }
}

impl UnverifiedTransaction {
    /// The verification request for this artifact: a pure extraction of the
    /// inner transaction's identity hash, the claimed signature and tag, the
    /// correlating fields, and the artifact's own identity hash. The signer
    /// is left unset; callers fill it only when already known.
    pub fn tx_verify_req_msg(&self) -> (r: VerifyTxReq)
        ensures
            r@ == req_of_utx(self@),
    {
        let hash = self.get_transaction().crypt_hash();
        let tx_hash = self.crypt_hash();
        let r = VerifyTxReq {
            hash,
            crypto: self.get_crypto(),
            signature: copy_bytes(self.get_signature().as_slice()),
            nonce: self.get_transaction().nonce.clone(),
            value: copy_bytes(self.get_transaction().value.as_slice()),
            chain_id: self.get_transaction().chain_id,
            quota: self.get_transaction().quota,
            valid_until_block: self.get_transaction().valid_until_block,
            tx_hash,
            signer: None,
        };
        r
    }
}

/// A batched verification request: a request id and the per-transaction
/// requests in block-body order. Order is significant and mirrors the body.
pub struct VerifyBlockReq {
    pub id: u64,
    pub reqs: Vec<VerifyTxReq>,
}

impl Block {
    /// The batched request for this block: one request per body transaction,
    /// in body order, each carrying the signer the block already asserts.
    pub fn block_verify_req(&self, request_id: u64) -> (r: VerifyBlockReq)
        ensures
            r.id == request_id,
            r.reqs@.len() == self@.body.len(),
            forall|i: int| 0 <= i < r.reqs@.len() ==> r.reqs@[i]@ == req_of_signed(self@.body[i]),
    {
        let mut reqs: Vec<VerifyTxReq> = Vec::new();
        let signed_txs = self.get_body().get_transactions();
        let mut i: usize = 0;
        while i < signed_txs.len()
            invariant
                i <= signed_txs@.len(),
                signed_txs@.len() == self@.body.len(),
                forall|k: int| 0 <= k < signed_txs@.len() ==> signed_txs@[k]@ == self@.body[k],
                reqs@.len() == i,
                forall|k: int| 0 <= k < i ==> reqs@[k]@ == req_of_signed(self@.body[k]),
            decreases signed_txs@.len() - i,
        {
            let signed_tx = &signed_txs[i];
            let signer = copy_bytes(signed_tx.get_signer().as_slice());
            let unverified_tx = signed_tx.get_transaction_with_sig();
            let mut verify_tx_req = unverified_tx.tx_verify_req_msg();
            verify_tx_req.signer = Some(signer);
            reqs.push(verify_tx_req);
            i = i + 1;
        }
        VerifyBlockReq { id: request_id, reqs }
    }
}

} // verus!
