//! Plain records handed back to submitters and state snapshots.

use vstd::prelude::*;

use crate::hash::Hash256;

verus! {

/// The per-item record a submitter receives: the artifact's identity hash
/// and a status line.
pub struct TxResponse {
    pub hash: Hash256,
    pub status: String,
}

impl TxResponse {
    /// Pairs an identity hash with its status.
    pub fn new(hash: Hash256, status: String) -> (r: TxResponse)
        ensures
            r.hash@ == hash@,
            r.status@ == status@,
    {
        TxResponse { hash, status }
    }
}

/// An opaque state snapshot: a sequence of raw byte records.
pub struct State(pub Vec<Vec<u8>>);

} // verus!
