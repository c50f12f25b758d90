//! The laws the pipeline's decision obeys, one proof function each, stated
//! over [`pipeline_decision`](crate::pipe::pipeline_decision) and the stage
//! decisions it chains. Each holds for every candidate, head, collaborator
//! verdict and clock reading its `requires` admits.

use vstd::prelude::*;
use crate::error::{CryptoError, Error, UnfitReason};
use crate::types::{Block, BlockHeader, Difficulty, BlockHash, Options, Tip};
use crate::pipe::{pipeline_decision, spec_check_known, spec_set_tip, spec_validate_header};

verus! {

/// A candidate whose hash equals the head's last block, or the one before
/// it, is rejected as already known — whatever its header says, whatever the
/// parent, the retarget, the proofs, the body or the clock say: the decision
/// never reaches them.
pub proof fn lemma_duplicate_rejected(
    b: Block, head: Tip, h: BlockHash, parent: BlockHeader, phd: Difficulty,
    expected: (Difficulty, u32), pow_full_ok: bool, pow_easy_ok: bool,
    body: Result<(), CryptoError>, now: int, opts: Options,
)
    requires
        h == head.last_block_h || h == head.prev_block_h,
    ensures
        pipeline_decision(b, head, h, parent, phd, expected, pow_full_ok, pow_easy_ok, body, now, opts)
            == Err::<Option<Tip>, Error>(Error::Unfit(UnfitReason::AlreadyKnown)),
{
}

/// A candidate that is no duplicate but sits more than one block past the
/// head is rejected as an orphan, whatever everything else says.
pub proof fn lemma_orphan_rejected(
    b: Block, head: Tip, h: BlockHash, parent: BlockHeader, phd: Difficulty,
    expected: (Difficulty, u32), pow_full_ok: bool, pow_easy_ok: bool,
    body: Result<(), CryptoError>, now: int, opts: Options,
)
    requires
        spec_check_known(h, head) is Ok,
        b.header.height > head.height + 1,
    ensures
        pipeline_decision(b, head, h, parent, phd, expected, pow_full_ok, pow_easy_ok, body, now, opts)
            == Err::<Option<Tip>, Error>(Error::Unfit(UnfitReason::Orphan)),
{
}

/// A candidate that reaches the timestamp checks and does not progress
/// strictly past its parent's timestamp is rejected for its block time.
pub proof fn lemma_stale_timestamp_rejected(
    b: Block, head: Tip, h: BlockHash, parent: BlockHeader, phd: Difficulty,
    expected: (Difficulty, u32), pow_full_ok: bool, pow_easy_ok: bool,
    body: Result<(), CryptoError>, now: int, opts: Options,
)
    requires
        spec_check_known(h, head) is Ok,
        b.header.height <= head.height + 1,
        b.header.timestamp <= parent.timestamp,
    ensures
        pipeline_decision(b, head, h, parent, phd, expected, pow_full_ok, pow_easy_ok, body, now, opts)
            == Err::<Option<Tip>, Error>(Error::InvalidBlockTime),
{
}

/// A candidate that reaches the timestamp checks and claims a time more than
/// twelve nominal block intervals past the local clock is rejected for its
/// block time.
pub proof fn lemma_future_timestamp_rejected(
    b: Block, head: Tip, h: BlockHash, parent: BlockHeader, phd: Difficulty,
    expected: (Difficulty, u32), pow_full_ok: bool, pow_easy_ok: bool,
    body: Result<(), CryptoError>, now: int, opts: Options,
)
    requires
        spec_check_known(h, head) is Ok,
        b.header.height <= head.height + 1,
        b.header.timestamp > now + 12 * crate::types::BLOCK_TIME_SEC,
    ensures
        pipeline_decision(b, head, h, parent, phd, expected, pow_full_ok, pow_easy_ok, body, now, opts)
            == Err::<Option<Tip>, Error>(Error::InvalidBlockTime),
{
}

/// A candidate that passes the timestamp checks but declares a cumulative
/// difficulty other than the parent's plus the difficulty implied by the
/// parent's own hash is rejected for its total difficulty.
pub proof fn lemma_wrong_total_difficulty_rejected(
    b: Block, head: Tip, h: BlockHash, parent: BlockHeader, phd: Difficulty,
    expected: (Difficulty, u32), pow_full_ok: bool, pow_easy_ok: bool,
    body: Result<(), CryptoError>, now: int, opts: Options,
)
    requires
        spec_check_known(h, head) is Ok,
        b.header.height <= head.height + 1,
        b.header.timestamp > parent.timestamp,
        b.header.timestamp <= now + 12 * crate::types::BLOCK_TIME_SEC,
        b.header.total_difficulty.num != parent.total_difficulty.num + phd.num,
    ensures
        pipeline_decision(b, head, h, parent, phd, expected, pow_full_ok, pow_easy_ok, body, now, opts)
            == Err::<Option<Tip>, Error>(Error::WrongTotalDifficulty),
{
}

/// A candidate that passes the arithmetic cross-check but declares a
/// difficulty below what the retarget function expects is rejected for
/// difficulty too low.
pub proof fn lemma_difficulty_too_low_rejected(
    b: Block, head: Tip, h: BlockHash, parent: BlockHeader, phd: Difficulty,
    expected: (Difficulty, u32), pow_full_ok: bool, pow_easy_ok: bool,
    body: Result<(), CryptoError>, now: int, opts: Options,
)
    requires
        spec_check_known(h, head) is Ok,
        b.header.height <= head.height + 1,
        b.header.timestamp > parent.timestamp,
        b.header.timestamp <= now + 12 * crate::types::BLOCK_TIME_SEC,
        b.header.total_difficulty.num == parent.total_difficulty.num + phd.num,
        b.header.difficulty.num < expected.0.num,
    ensures
        pipeline_decision(b, head, h, parent, phd, expected, pow_full_ok, pow_easy_ok, body, now, opts)
            == Err::<Option<Tip>, Error>(Error::DifficultyTooLow),
{
}

/// Outside relaxed mode, a candidate whose proof-size parameter differs from
/// the expected one is rejected for its proof size, once every cheaper check
/// has passed.
pub proof fn lemma_wrong_cuckoo_size_rejected(
    b: Block, head: Tip, h: BlockHash, parent: BlockHeader, phd: Difficulty,
    expected: (Difficulty, u32), pow_full_ok: bool, pow_easy_ok: bool,
    body: Result<(), CryptoError>, now: int, opts: Options,
)
    requires
        spec_check_known(h, head) is Ok,
        b.header.height <= head.height + 1,
        b.header.timestamp > parent.timestamp,
        b.header.timestamp <= now + 12 * crate::types::BLOCK_TIME_SEC,
        b.header.total_difficulty.num == parent.total_difficulty.num + phd.num,
        b.header.difficulty.num >= expected.0.num,
        b.header.cuckoo_len != expected.1,
        !opts.easy_pow,
    ensures
        pipeline_decision(b, head, h, parent, phd, expected, pow_full_ok, pow_easy_ok, body, now, opts)
            == Err::<Option<Tip>, Error>(Error::WrongCuckooSize),
{
}

/// In relaxed mode the proof-size check is skipped: no decision, on any
/// inputs whatsoever, is a proof-size rejection.
pub proof fn lemma_cuckoo_size_skipped_when_relaxed(
    b: Block, head: Tip, h: BlockHash, parent: BlockHeader, phd: Difficulty,
    expected: (Difficulty, u32), pow_full_ok: bool, pow_easy_ok: bool,
    body: Result<(), CryptoError>, now: int, opts: Options,
)
    requires
        opts.easy_pow,
    ensures
        pipeline_decision(b, head, h, parent, phd, expected, pow_full_ok, pow_easy_ok, body, now, opts)
            != Err::<Option<Tip>, Error>(Error::WrongCuckooSize),
{
}

/// A candidate whose proof of work fails for the active mode's bound — the
/// full parameters normally, the reduced bound in relaxed mode — is rejected
/// for its proof of work, once every cheaper check has passed.
pub proof fn lemma_invalid_pow_rejected(
    b: Block, head: Tip, h: BlockHash, parent: BlockHeader, phd: Difficulty,
    expected: (Difficulty, u32), pow_full_ok: bool, pow_easy_ok: bool,
    body: Result<(), CryptoError>, now: int, opts: Options,
)
    requires
        spec_check_known(h, head) is Ok,
        b.header.height <= head.height + 1,
        b.header.timestamp > parent.timestamp,
        b.header.timestamp <= now + 12 * crate::types::BLOCK_TIME_SEC,
        b.header.total_difficulty.num == parent.total_difficulty.num + phd.num,
        b.header.difficulty.num >= expected.0.num,
        opts.easy_pow || b.header.cuckoo_len == expected.1,
        opts.easy_pow ==> !pow_easy_ok,
        !opts.easy_pow ==> !pow_full_ok,
    ensures
        pipeline_decision(b, head, h, parent, phd, expected, pow_full_ok, pow_easy_ok, body, now, opts)
            == Err::<Option<Tip>, Error>(Error::InvalidPow),
{
}

/// A candidate whose whole header validates but whose previous-hash is not
/// the head's last block has no attachment point under the single-branch
/// policy: it is rejected as unfit and no branch is created — the decision
/// is a rejection whatever the body verdict says.
pub proof fn lemma_no_attachment_rejected(
    b: Block, head: Tip, h: BlockHash, parent: BlockHeader, phd: Difficulty,
    expected: (Difficulty, u32), pow_full_ok: bool, pow_easy_ok: bool,
    body: Result<(), CryptoError>, now: int, opts: Options,
)
    requires
        spec_check_known(h, head) is Ok,
        spec_validate_header(
            b.header, head, parent, phd, expected, pow_full_ok, pow_easy_ok, now, opts,
        ) is Ok,
        b.header.previous != head.last_block_h,
    ensures
        pipeline_decision(b, head, h, parent, phd, expected, pow_full_ok, pow_easy_ok, body, now, opts)
            == Err::<Option<Tip>, Error>(Error::Unfit(UnfitReason::NoAttachmentPoint)),
{
}

/// An invalid body on an otherwise placeable candidate is rejected with the
/// verifier's own cause.
pub proof fn lemma_invalid_body_rejected(
    b: Block, head: Tip, h: BlockHash, parent: BlockHeader, phd: Difficulty,
    expected: (Difficulty, u32), pow_full_ok: bool, pow_easy_ok: bool,
    cause: CryptoError, now: int, opts: Options,
)
    requires
        spec_check_known(h, head) is Ok,
        spec_validate_header(
            b.header, head, parent, phd, expected, pow_full_ok, pow_easy_ok, now, opts,
        ) is Ok,
        spec_set_tip(b.header, head) is Ok,
    ensures
        pipeline_decision(
            b, head, h, parent, phd, expected, pow_full_ok, pow_easy_ok, Err(cause), now, opts,
        ) == Err::<Option<Tip>, Error>(Error::InvalidBlockProof(cause)),
{
}

/// On full acceptance the head advances by exactly the candidate: the new
/// tip's last hash is the candidate's hash, its previous hash is the old
/// head's last, its height is the old head's plus one, and its cumulative
/// difficulty is the candidate's declared one — which the header checks tied
/// to the parent's cumulative difficulty plus the difficulty implied by the
/// parent's own hash.
pub proof fn lemma_acceptance_advances_head(
    b: Block, head: Tip, h: BlockHash, parent: BlockHeader, phd: Difficulty,
    expected: (Difficulty, u32), pow_full_ok: bool, pow_easy_ok: bool,
    now: int, opts: Options,
)
    requires
        spec_check_known(h, head) is Ok,
        spec_validate_header(
            b.header, head, parent, phd, expected, pow_full_ok, pow_easy_ok, now, opts,
        ) is Ok,
        b.header.previous == head.last_block_h,
        head.height < u64::MAX,
    ensures
        ({
            let r = pipeline_decision(
                b, head, h, parent, phd, expected, pow_full_ok, pow_easy_ok, Ok(()), now, opts,
            );
            &&& r matches Ok(ot)
            &&& ot matches Some(t)
            &&& t.last_block_h == h
            &&& t.prev_block_h == head.last_block_h
            &&& t.height == head.height + 1
            &&& t.total_difficulty == b.header.total_difficulty
            &&& t.total_difficulty.num == parent.total_difficulty.num + phd.num
        }),
{
}

/// Where the head tip and the parent header it names agree on the chain's
/// cumulative difficulty — the store invariant for a head that passed every
/// stage — an accepted candidate's new tip carries the head's cumulative
/// difficulty plus the difficulty implied by the parent's own hash.
pub proof fn lemma_acceptance_total_difficulty(
    b: Block, head: Tip, h: BlockHash, parent: BlockHeader, phd: Difficulty,
    expected: (Difficulty, u32), pow_full_ok: bool, pow_easy_ok: bool,
    now: int, opts: Options,
)
    requires
        spec_check_known(h, head) is Ok,
        spec_validate_header(
            b.header, head, parent, phd, expected, pow_full_ok, pow_easy_ok, now, opts,
        ) is Ok,
        b.header.previous == head.last_block_h,
        head.height < u64::MAX,
        parent.total_difficulty == head.total_difficulty,
    ensures
        ({
            let r = pipeline_decision(
                b, head, h, parent, phd, expected, pow_full_ok, pow_easy_ok, Ok(()), now, opts,
            );
            &&& r matches Ok(ot)
            &&& ot matches Some(t)
            &&& t.total_difficulty.num == head.total_difficulty.num + phd.num
        }),
{
}

} // verus!
