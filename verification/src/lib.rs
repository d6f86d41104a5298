//! Transaction and block integrity pipeline of a blockchain node.
//!
//! The crate turns a plaintext transaction into a signed, content-addressed
//! artifact, recovers and validates the signer of received artifacts,
//! assembles batched verification requests for an external verifier pool, and
//! checks a block's declared transaction-set commitment against its contents.

pub mod block;
pub mod bytes;
pub mod crypto;
pub mod hash;
pub mod proof_codec;
pub mod request;
pub mod response;
pub mod transaction;

pub use block::Block;
pub use block::BlockBody;
pub use block::BlockHeader;
pub use crypto::Scheme;
pub use hash::Hash256;
pub use proof_codec::Proof;
pub use proof_codec::ProofError;
pub use request::VerifyBlockReq;
pub use request::VerifyTxReq;
pub use response::State;
pub use response::TxResponse;
pub use transaction::SignedTransaction;
pub use transaction::Transaction;
pub use transaction::UnverifiedTransaction;
pub use transaction::VerifyError;
