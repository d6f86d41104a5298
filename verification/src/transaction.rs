//! Plaintext transactions, signed artifacts, and the signer/verifier pair.
//!
//! A `Transaction` is a client's plaintext intent and never carries a
//! signature. An `UnverifiedTransaction` wraps it with signature bytes and a
//! scheme tag: it claims to be signed but is not yet checked. A
//! `SignedTransaction` exists only as the outcome of successful signing or
//! successful verification, and caches the identity hash of the artifact it
//! wraps.

use vstd::prelude::*;
use vstd::utf8::encode_utf8;

use crate::bytes::append_le4;
use crate::bytes::append_le8;
use crate::bytes::append_len_prefixed;
use crate::bytes::copy_bytes;
use crate::bytes::le4;
use crate::bytes::le8;
use crate::bytes::len_prefixed;
use crate::crypto::pubkey_of;
use crate::crypto::recover_of;
use crate::crypto::secp_recover;
use crate::crypto::secp_sign;
use crate::crypto::sign_of;
use crate::crypto::Scheme;
use crate::crypto::PUBKEY_BYTES_LEN;
use crate::crypto::SIGNATURE_BYTES_LEN;
use crate::hash::hash_bytes;
use crate::hash::keccak_of;
use crate::hash::Hash256;

verus! {

/// A plaintext client transaction, immutable once created.
pub struct Transaction {
    /// Payload bytes.
    pub data: Vec<u8>,
    /// Client-chosen uniqueness string.
    pub nonce: String,
    /// Destination; empty means contract creation.
    pub to: String,
    /// Block height after which the transaction must be rejected.
    pub valid_until_block: u64,
    /// Resource budget.
    pub quota: u64,
    /// Transfer amount, big-endian bytes.
    pub value: Vec<u8>,
    /// Chain identifier.
    pub chain_id: u32,
}

/// The mathematical content of a `Transaction`.
pub struct TransactionView {
    pub data: Seq<u8>,
    pub nonce: Seq<char>,
    pub to: Seq<char>,
    pub valid_until_block: u64,
    pub quota: u64,
    pub value: Seq<u8>,
    pub chain_id: u32,
}

impl View for Transaction {
    type V = TransactionView;

    open spec fn view(&self) -> TransactionView {
        TransactionView {
            data: self.data@,
            nonce: self.nonce@,
            to: self.to@,
            valid_until_block: self.valid_until_block,
            quota: self.quota,
            value: self.value@,
            chain_id: self.chain_id,
        }
    }
}

/// Canonical bytes of a transaction: every variable-width field is prefixed
/// with its length, so equal encodings come only from equal contents.
pub open spec fn tx_encoding(t: TransactionView) -> Seq<u8> {
    len_prefixed(t.data) + len_prefixed(encode_utf8(t.nonce)) + len_prefixed(encode_utf8(t.to))
        + le8(t.valid_until_block) + le8(t.quota) + len_prefixed(t.value) + le4(t.chain_id)
}

/// The identity hash of a plaintext transaction.
pub open spec fn tx_hash_of(t: TransactionView) -> Seq<u8> {
    keccak_of(tx_encoding(t))
}

/// Claims to be signed, not yet checked: a transaction together with
/// signature bytes and the scheme tag they were made under.
pub struct UnverifiedTransaction {
    pub transaction: Transaction,
    pub signature: Vec<u8>,
    pub crypto: Scheme,
}

/// The mathematical content of an `UnverifiedTransaction`.
pub struct UnverifiedTransactionView {
    pub transaction: TransactionView,
    pub signature: Seq<u8>,
    pub crypto: Scheme,
}

impl View for UnverifiedTransaction {
    type V = UnverifiedTransactionView;

    open spec fn view(&self) -> UnverifiedTransactionView {
        UnverifiedTransactionView {
            transaction: self.transaction@,
            signature: self.signature@,
            crypto: self.crypto,
        }
    }
}

/// The byte standing for a scheme tag in the canonical encoding.
pub open spec fn scheme_tag(c: Scheme) -> u8 {
    match c {
        Scheme::Secp => 0u8,
        Scheme::Sm2 => 1u8,
    }
}

/// Canonical bytes of an unverified artifact: the inner transaction's bytes,
/// the length-prefixed signature, and the scheme tag.
pub open spec fn utx_encoding(u: UnverifiedTransactionView) -> Seq<u8> {
    tx_encoding(u.transaction) + len_prefixed(u.signature) + seq![scheme_tag(u.crypto)]
}

/// The identity hash of an unverified artifact. It differs from the inner
/// transaction's own hash: the signature and the tag are hashed too.
pub open spec fn utx_hash_of(u: UnverifiedTransactionView) -> Seq<u8> {
    keccak_of(utx_encoding(u))
}

/// Why an artifact was rejected.
#[derive(Clone, Copy, PartialEq, Eq, Structural, Debug)]
pub enum VerifyError {
    /// The signature does not have the scheme's required length.
    InvalidSignatureLength,
    /// The bytes are not a valid recoverable signature for the digest.
    RecoverError,
    /// The scheme tag is outside the supported set.
    UnsupportedScheme,
}

/// A verified artifact: the wrapped unverified transaction, the recovered or
/// derived signer, and the cached identity hash of the wrapped artifact.
pub struct SignedTransaction {
    transaction_with_sig: UnverifiedTransaction,
    signer: Vec<u8>,
    tx_hash: Hash256,
}

/// The mathematical content of a `SignedTransaction`.
pub struct SignedTransactionView {
    pub transaction_with_sig: UnverifiedTransactionView,
    pub signer: Seq<u8>,
    pub tx_hash: Seq<u8>,
}

impl View for SignedTransaction {
    type V = SignedTransactionView;

    closed spec fn view(&self) -> SignedTransactionView {
        SignedTransactionView {
            transaction_with_sig: self.transaction_with_sig@,
            signer: self.signer@,
            tx_hash: self.tx_hash@,
        }
    }
}

impl Transaction {
    /// Builds a transaction from its parts.
    pub fn new(
        data: Vec<u8>,
        nonce: String,
        to: String,
        valid_until_block: u64,
        quota: u64,
        value: Vec<u8>,
        chain_id: u32,
    ) -> (r: Transaction)
        ensures
            r@ == (TransactionView {
                data: data@,
                nonce: nonce@,
                to: to@,
                valid_until_block,
                quota,
                value: value@,
                chain_id,
            }),
    {
        Transaction { data, nonce, to, valid_until_block, quota, value, chain_id }
    }

    /// An independent copy with the same content.
    pub fn duplicate(&self) -> (r: Transaction)
        ensures
            r@ == self@,
    {
        Transaction {
            data: copy_bytes(self.data.as_slice()),
            nonce: self.nonce.clone(),
            to: self.to.clone(),
            valid_until_block: self.valid_until_block,
            quota: self.quota,
            value: copy_bytes(self.value.as_slice()),
            chain_id: self.chain_id,
        }
    }

    /// The canonical bytes of this transaction.
    fn encode(&self) -> (r: Vec<u8>)
        ensures
            r@ == tx_encoding(self@),
    {
        let mut out: Vec<u8> = Vec::new();
        append_len_prefixed(&mut out, self.data.as_slice());
        append_len_prefixed(&mut out, self.nonce.as_str().as_bytes());
        append_len_prefixed(&mut out, self.to.as_str().as_bytes());
        append_le8(&mut out, self.valid_until_block);
        append_le8(&mut out, self.quota);
        append_len_prefixed(&mut out, self.value.as_slice());
        append_le4(&mut out, self.chain_id);
        proof {
            assert(out@ =~= tx_encoding(self@));
        }
        out
    }

    /// The identity hash of the plaintext transaction alone.
    pub fn crypt_hash(&self) -> (r: Hash256)
        ensures
            r@ == tx_hash_of(self@),
            r.wf(),
    {
        let encoded = self.encode();
        hash_bytes(encoded.as_slice())
    }

    /// Builds the unverified artifact: signs the transaction's identity hash
    /// with the secret key under the secp256k1 scheme and stores the
    /// signature bytes and the scheme tag alongside a copy of the
    /// transaction. Fails exactly when the secret key is invalid.
    pub fn build_unverified(&self, sk: &[u8]) -> (r: Option<UnverifiedTransaction>)
        ensures
            match r {
                Some(u) => {
                    &&& u@.transaction == self@
                    &&& u@.crypto == Scheme::Secp
                    &&& sign_of(tx_hash_of(self@), sk@) == Some(u@.signature)
                    &&& u@.signature.len() == SIGNATURE_BYTES_LEN
                    &&& pubkey_of(sk@) is Some
                    &&& recover_of(tx_hash_of(self@), u@.signature) == pubkey_of(sk@)
                },
                None => sign_of(tx_hash_of(self@), sk@) is None && pubkey_of(sk@) is None,
            },
    {
        let hash = self.crypt_hash();
        match secp_sign(hash.bytes.as_slice(), sk) {
            Some(signature) => Some(
                UnverifiedTransaction {
                    transaction: self.duplicate(),
                    signature,
                    crypto: Scheme::Secp,
                },
            ),
            None => None,
        }
    }

    /// Signs the transaction: derives the public key, builds the unverified
    /// artifact, and wraps both with the artifact's identity hash. The result
    /// always passes this crate's own verification. Fails exactly when the
    /// secret key is invalid.
    #[verifier::rlimit(50)]
    pub fn sign(&self, sk: &[u8]) -> (r: Option<SignedTransaction>)
        ensures
            match r {
                Some(st) => {
                    &&& st@.transaction_with_sig.transaction == self@
                    &&& st@.transaction_with_sig.crypto == Scheme::Secp
                    &&& sign_of(tx_hash_of(self@), sk@)
                        == Some(st@.transaction_with_sig.signature)
                    &&& pubkey_of(sk@) == Some(st@.signer)
                    &&& recover_of(tx_hash_of(self@), st@.transaction_with_sig.signature)
                        == Some(st@.signer)
                    &&& st@.tx_hash == utx_hash_of(st@.transaction_with_sig)
                    &&& st.wf()
                    &&& verifiable(st@.transaction_with_sig)
                },
                None => sign_of(tx_hash_of(self@), sk@) is None && pubkey_of(sk@) is None,
            },
    {
        match self.build_unverified(sk) {
            Some(unverified_tx) => {
                let signer = match crate::crypto::secp_pubkey(sk) {
                    Some(p) => p,
                    None => return None,
                };
                let tx_hash = unverified_tx.crypt_hash();
                Some(SignedTransaction { transaction_with_sig: unverified_tx, signer, tx_hash })
            },
            None => None,
        }
    }
}

impl UnverifiedTransaction {
    /// The wrapped plaintext transaction.
    pub fn get_transaction(&self) -> (r: &Transaction)
        ensures
            r@ == self@.transaction,
    {
        &self.transaction
    }

    /// The claimed signature bytes.
    pub fn get_signature(&self) -> (r: &Vec<u8>)
        ensures
            r@ == self@.signature,
    {
        &self.signature
    }

    /// The claimed scheme tag.
    pub fn get_crypto(&self) -> (r: Scheme)
        ensures
            r == self@.crypto,
    {
        self.crypto
    }

    /// The canonical bytes of this artifact.
    fn encode(&self) -> (r: Vec<u8>)
        ensures
            r@ == utx_encoding(self@),
    {
        let mut out = self.transaction.encode();
        append_len_prefixed(&mut out, self.signature.as_slice());
        out.push(scheme_byte(self.crypto));
        proof {
            assert(out@ =~= utx_encoding(self@));
        }
        out
    }

    /// The identity hash of this artifact: the hash used everywhere
    /// downstream as its id.
    pub fn crypt_hash(&self) -> (r: Hash256)
        ensures
            r@ == utx_hash_of(self@),
            r.wf(),
    {
        let encoded = self.encode();
        hash_bytes(encoded.as_slice())
    }

    /// Recovers the signer. Checks the signature length, dispatches on the
    /// scheme tag over the closed set of supported variants, and recovers a
    /// candidate public key from the inner transaction's hash and the
    /// signature bytes. On success returns the recovered key paired with the
    /// identity hash of this outer artifact; on failure, that hash paired
    /// with the specific error. Total and side-effect free.
    pub fn recover_public(&self) -> (r: Result<(Vec<u8>, Hash256), (Hash256, VerifyError)>)
        ensures
            match r {
                Ok((public, h)) => {
                    &&& self@.signature.len() == SIGNATURE_BYTES_LEN
                    &&& self@.crypto == Scheme::Secp
                    &&& recover_of(tx_hash_of(self@.transaction), self@.signature)
                        == Some(public@)
                    &&& public@.len() == PUBKEY_BYTES_LEN
                    &&& h@ == utx_hash_of(self@)
                    &&& h.wf()
                },
                Err((h, e)) => {
                    &&& h@ == utx_hash_of(self@)
                    &&& h.wf()
                    &&& match e {
                        VerifyError::InvalidSignatureLength => self@.signature.len()
                            != SIGNATURE_BYTES_LEN,
                        VerifyError::UnsupportedScheme => self@.signature.len()
                            == SIGNATURE_BYTES_LEN && self@.crypto != Scheme::Secp,
                        VerifyError::RecoverError => self@.signature.len()
                            == SIGNATURE_BYTES_LEN && self@.crypto == Scheme::Secp
                            && recover_of(tx_hash_of(self@.transaction), self@.signature)
                            is None,
                    }
                },
            },
    {
        let tx_hash = self.crypt_hash();
        if self.signature.len() != SIGNATURE_BYTES_LEN {
            return Err((tx_hash, VerifyError::InvalidSignatureLength));
        }
        match self.crypto {
            Scheme::Secp => {
                let hash = self.transaction.crypt_hash();
                match secp_recover(hash.bytes.as_slice(), self.signature.as_slice()) {
                    Some(public) => Ok((public, tx_hash)),
                    None => Err((tx_hash, VerifyError::RecoverError)),
                }
            },
            _ => Err((tx_hash, VerifyError::UnsupportedScheme)),
        }
    }
}

fn scheme_byte(c: Scheme) -> (r: u8)
    ensures
        r == scheme_tag(c),
{
    match c {
        Scheme::Secp => 0u8,
        Scheme::Sm2 => 1u8,
    }
}

/// Whether an unverified artifact passes verification: the signature has the
/// scheme's length, the scheme is supported, and a signer can be recovered.
pub open spec fn verifiable(u: UnverifiedTransactionView) -> bool {
    &&& u.signature.len() == SIGNATURE_BYTES_LEN
    &&& u.crypto == Scheme::Secp
    &&& recover_of(tx_hash_of(u.transaction), u.signature) is Some
}

impl SignedTransaction {
    /// A verified artifact is well formed when its cached hash is the
    /// identity hash of the artifact it wraps and the signer has the
    /// scheme's public-key width.
    pub open spec fn wf(&self) -> bool {
        &&& self@.tx_hash == utx_hash_of(self@.transaction_with_sig)
        &&& self@.tx_hash.len() == 32
        &&& self@.signer.len() == PUBKEY_BYTES_LEN
    }

    /// Verifies an unverified artifact and recovers its sender. On failure
    /// the specific reason is collapsed to just the artifact's identity hash:
    /// callers needing the distinction call `recover_public` directly.
    /// Re-verifying identical bytes yields identical output fields.
    pub fn verify_transaction(transaction: UnverifiedTransaction) -> (r: Result<
        SignedTransaction,
        Hash256,
    >)
        ensures
            match r {
                Ok(st) => {
                    &&& verifiable(transaction@)
                    &&& st@.transaction_with_sig == transaction@
                    &&& recover_of(tx_hash_of(transaction@.transaction), transaction@.signature)
                        == Some(st@.signer)
                    &&& st@.tx_hash == utx_hash_of(transaction@)
                    &&& st.wf()
                },
                Err(h) => !verifiable(transaction@) && h@ == utx_hash_of(transaction@) && h.wf(),
            },
    {
        match transaction.recover_public() {
            Ok((public, tx_hash)) => Ok(
                SignedTransaction { transaction_with_sig: transaction, signer: public, tx_hash },
            ),
            Err((hash, _)) => Err(hash),
        }
    }

    /// The cached identity hash of the wrapped artifact.
    pub fn crypt_hash(&self) -> (r: Hash256)
        ensures
            r@ == self@.tx_hash,
    {
        self.tx_hash.duplicate()
    }

    /// The recovered or derived signer.
    pub fn get_signer(&self) -> (r: &Vec<u8>)
        ensures
            r@ == self@.signer,
    {
        &self.signer
    }

    /// The wrapped unverified artifact.
    pub fn get_transaction_with_sig(&self) -> (r: &UnverifiedTransaction)
        ensures
            r@ == self@.transaction_with_sig,
    {
        &self.transaction_with_sig
    }
}

} // verus!

