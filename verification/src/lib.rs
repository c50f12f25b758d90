//! The block-acceptance pipeline of a blockchain node.
//!
//! Given a candidate block received from the network, the pipeline decides,
//! through a fixed sequence of cheap-to-expensive checks, whether the block
//! is valid, whether it attaches at the current chain head, and whether it
//! becomes the new head. Persistence, proof-of-work verification, difficulty
//! retargeting and commitment/signature checking are collaborators supplied
//! by the caller; the pipeline itself owns the ordering of the checks, the
//! tip-selection policy and the error taxonomy.

pub mod error;
pub mod types;
pub mod pipe;
pub mod laws;
