//! The closed set of reasons for which the pipeline rejects a candidate
//! block or aborts an invocation.

use vstd::prelude::*;

verus! {

/// Why a candidate block does not fit anywhere in the chain right now.
#[derive(Clone, Copy, Debug, PartialEq, Eq, Structural)]
pub enum UnfitReason {
    /// The candidate's hash equals the current head's last block or the one
    /// before it: the node has already handled this block.
    AlreadyKnown,
    /// The candidate's height is more than one past the current head; the
    /// pipeline does not buffer orphans for later reattachment.
    Orphan,
    /// The candidate's previous-hash does not name the current head, and the
    /// node tracks no other branch it could extend.
    NoAttachmentPoint,
}

/// The cause carried by a failed commitment/signature verification.
#[derive(Clone, Copy, Debug, PartialEq, Eq, Structural)]
pub enum CryptoError {
    /// The block's values do not sum correctly.
    IncorrectSum,
    /// A transaction signature does not verify.
    InvalidSignature,
    /// A commitment in the block is malformed.
    InvalidCommitment,
}

/// The cause carried by a failed call into the chain-state accessor.
#[derive(Clone, Copy, Debug, PartialEq, Eq, Structural)]
pub enum StoreError {
    /// The requested item is not in the store.
    NotFound,
    /// The persistence layer failed to read or write.
    Storage,
}

/// Every way one `process_block` invocation can end without a new head.
///
/// All variants but `StoreErr` say that the candidate block itself is invalid
/// or not attachable and must not be retried unmodified; `StoreErr` says the
/// persistence collaborator failed and the whole attempt may be retried.
#[derive(Clone, Copy, Debug, PartialEq, Eq, Structural)]
pub enum Error {
    /// The block does not fit anywhere in the chain.
    Unfit(UnfitReason),
    /// Declared difficulty is below what the retarget function requires.
    DifficultyTooLow,
    /// Declared cumulative difficulty disagrees with the parent's.
    WrongTotalDifficulty,
    /// The proof-size parameter in the header does not match the expected one.
    WrongCuckooSize,
    /// The proof of work is invalid.
    InvalidPow,
    /// The block does not sum correctly or a signature is invalid.
    InvalidBlockProof(CryptoError),
    /// The block's timestamp does not progress from the parent's, or lies
    /// too far in the future.
    InvalidBlockTime,
    /// A read or write through the chain-state accessor failed.
    StoreErr(StoreError),
}

} // verus!
