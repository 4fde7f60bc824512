//! The ways in which the pool turns a request down.
use vstd::prelude::*;

verus! {

/// Why a request was dropped, or an operation of the pool failed.
#[derive(Clone, Copy, Debug, PartialEq, Eq, Structural)]
pub enum PoolError {
    /// The block was not built on the current tip of the ledger.
    StaleSubmission,
    /// The block has no readable coinbase transaction.
    UnreadableCoinbase,
    /// No record of the coinbase transaction is owned by the pool.
    InvalidOwner,
    /// The header of the block holds no proof.
    MissingProof,
    /// The proof in the header could not be turned into bytes.
    ProofEncodingError,
    /// The hash of the proof does not clear the worker's share difficulty.
    FaultyShare,
    /// The pool holds no block template.
    NoTemplate,
    /// The share store could not take the credit.
    StorageFault,
    /// The ledger did not build a block template.
    TemplateBuildError,
}

} // verus!
