//! The block acceptance (or refusal) pipeline: a fixed sequence of staged
//! checks run against a per-invocation context, ordered from cheapest to most
//! expensive so a hostile candidate costs as little as possible before it is
//! thrown out.
//!
//! Each stage's decision is stated by a spec function of the plain values the
//! stage reads; the executable stages are proved to return exactly those
//! decisions, and [`pipeline_decision`] chains them into the decision of one
//! whole invocation.

use vstd::prelude::*;
use crate::error::{CryptoError, Error, UnfitReason};
use crate::types::{
    spec_appended_tip, Block, BlockHeader, ChainAdapter, ChainStore, Consensus, Difficulty,
    BlockHash, Options, Tip, BLOCK_TIME_SEC, EASY_POW_CUCKOO_SIZE,
};

verus! {

/// Contextual information required to process a new block and either reject
/// or accept it: the validation options, the head observed at entry, and the
/// provisional tip once the block has been positioned. Exists only for the
/// duration of one `process_block` invocation.
pub struct BlockContext {
    pub opts: Options,
    pub head: Tip,
    pub tip: Option<Tip>,
}

/// The duplicate-rejection stage's decision: a candidate whose hash equals
/// the head's last block, or the one before it, was already handled.
pub open spec fn spec_check_known(h: BlockHash, head: Tip) -> Result<(), Error> {
    if h == head.last_block_h || h == head.prev_block_h {
        Err(Error::Unfit(UnfitReason::AlreadyKnown))
    } else {
        Ok(())
    }
}

/// The header-validation stage's decision, given the values the stage reads:
/// the candidate header, the head observed at entry, the parent header named
/// by the candidate, the difficulty the parent's own hash implies, the
/// (difficulty, proof-size) pair the retarget function expects, the two
/// proof-of-work verdicts, the local clock and the validation options.
///
/// The sub-checks run in order of cost; the first to fail names the error.
pub open spec fn spec_validate_header(
    hdr: BlockHeader,
    head: Tip,
    parent: BlockHeader,
    parent_hash_difficulty: Difficulty,
    expected: (Difficulty, u32),
    pow_full_ok: bool,
    pow_easy_ok: bool,
    now: int,
    opts: Options,
) -> Result<(), Error> {
    if hdr.height > head.height + 1 {
        Err(Error::Unfit(UnfitReason::Orphan))
    } else if hdr.timestamp <= parent.timestamp {
        Err(Error::InvalidBlockTime)
    } else if hdr.timestamp > now + 12 * BLOCK_TIME_SEC {
        Err(Error::InvalidBlockTime)
    } else if hdr.total_difficulty.num != parent.total_difficulty.num + parent_hash_difficulty.num {
        Err(Error::WrongTotalDifficulty)
    } else if hdr.difficulty.num < expected.0.num {
        Err(Error::DifficultyTooLow)
    } else if hdr.cuckoo_len != expected.1 && !opts.easy_pow {
        Err(Error::WrongCuckooSize)
    } else if opts.easy_pow && !pow_easy_ok {
        Err(Error::InvalidPow)
    } else if !opts.easy_pow && !pow_full_ok {
        Err(Error::InvalidPow)
    } else {
        Ok(())
    }
}

/// The tip-selection stage's decision: under the single-branch policy the
/// candidate must extend the head directly, and the provisional tip starts
/// as a copy of the head observed at entry.
pub open spec fn spec_set_tip(hdr: BlockHeader, head: Tip) -> Result<Tip, Error> {
    if hdr.previous != head.last_block_h {
        Err(Error::Unfit(UnfitReason::NoAttachmentPoint))
    } else {
        Ok(head)
    }
}

/// The decision of one whole pipeline invocation, given the candidate, the
/// head observed at entry, the candidate's hash, the parent header, the
/// difficulty implied by the parent's hash, the expected retarget pair, the
/// proof-of-work verdicts, the body verdict, the clock and the options — all
/// the values the stages read. The first stage to fail names the error; on
/// full success the head advances by exactly the candidate.
pub open spec fn pipeline_decision(
    b: Block,
    head: Tip,
    h: BlockHash,
    parent: BlockHeader,
    parent_hash_difficulty: Difficulty,
    expected: (Difficulty, u32),
    pow_full_ok: bool,
    pow_easy_ok: bool,
    body: Result<(), CryptoError>,
    now: int,
    opts: Options,
) -> Result<Option<Tip>, Error> {
    match spec_check_known(h, head) {
        Err(e) => Err(e),
        Ok(_) => match spec_validate_header(
            b.header, head, parent, parent_hash_difficulty, expected,
            pow_full_ok, pow_easy_ok, now, opts,
        ) {
            Err(e) => Err(e),
            Ok(_) => match spec_set_tip(b.header, head) {
                Err(e) => Err(e),
                Ok(t) => match body {
                    Err(e) => Err(Error::InvalidBlockProof(e)),
                    Ok(_) => Ok(Some(spec_appended_tip(t, h, b.header.total_difficulty))),
                },
            },
        },
    }
}

/// The decision of one whole pipeline invocation against a store observed
/// with head `head` and header index `index`: [`pipeline_decision`] with the
/// candidate's hash, its parent, the difficulty the parent's hash implies,
/// the retarget pair and the collaborator verdicts all read off `rules` and
/// `index`.
pub open spec fn spec_decision_at<C: Consensus>(
    b: Block,
    head: Tip,
    index: Map<BlockHash, BlockHeader>,
    rules: C,
    now: int,
    opts: Options,
) -> Result<Option<Tip>, Error> {
    let h = rules.hash_of(b.header);
    let parent = index[b.header.previous];
    let phd = rules.difficulty_from_hash(rules.hash_of(parent));
    let expected = rules.next_target_of(
        b.header.timestamp as int, parent.timestamp as int,
        parent.difficulty, parent.cuckoo_len,
    );
    pipeline_decision(
        b, head, h, parent, phd, expected,
        rules.pow_valid(b), rules.pow_valid_at_size(b, EASY_POW_CUCKOO_SIZE),
        rules.body_valid(b), now, opts,
    )
}

/// Quick check to fast-reject any block the node has just handled: the
/// common case for network relay duplication. Run first, touches nothing
/// but the head observed at entry.
pub fn check_known(bh: &BlockHash, ctx: &BlockContext) -> (r: Result<(), Error>)
    ensures
        r == spec_check_known(*bh, ctx.head),
{
    if *bh == ctx.head.last_block_h || *bh == ctx.head.prev_block_h {
        return Err(Error::Unfit(UnfitReason::AlreadyKnown));
    }
    Ok(())
}

/// First level of block validation, acting on the header only and arranged
/// by order of cost to keep the denial-of-service surface small: height
/// bound, parent lookup, strict time progression, future-time bound,
/// total-difficulty consistency, difficulty floor, proof-size match, and
/// last the proof of work itself.
///
/// The result is exactly [`spec_validate_header`] over the values read from
/// the store and the consensus rules, unless a store read failed, in which
/// case that failure surfaces as `StoreErr`. The height bound precedes the
/// parent lookup, so an orphan is rejected unconditionally: a store failure
/// can surface only on a candidate within the height bound.
pub fn validate_header<S: ChainStore, C: Consensus>(
    b: &Block,
    ctx: &BlockContext,
    store: &S,
    rules: &C,
    now: i64,
) -> (r: Result<(), Error>)
    ensures
        ({
            let hdr = b.header;
            let parent = store.header_index()[hdr.previous];
            let phd = rules.difficulty_from_hash(rules.hash_of(parent));
            let expected = rules.next_target_of(
                hdr.timestamp as int, parent.timestamp as int,
                parent.difficulty, parent.cuckoo_len,
            );
            ||| (r matches Err(Error::StoreErr(_)) && hdr.height <= ctx.head.height + 1)
            ||| {
                &&& (hdr.height <= ctx.head.height + 1 ==>
                        store.header_index().contains_key(hdr.previous))
                &&& r == spec_validate_header(
                        hdr, ctx.head, parent, phd, expected,
                        rules.pow_valid(*b),
                        rules.pow_valid_at_size(*b, EASY_POW_CUCKOO_SIZE),
                        now as int, ctx.opts,
                    )
            }
        }),
{
    let header = &b.header;
    if header.height as u128 > ctx.head.height as u128 + 1 {
        return Err(Error::Unfit(UnfitReason::Orphan));
    }

    let prev = match store.get_block_header(&header.previous) {
        Ok(h) => h,
        Err(e) => {
            return Err(Error::StoreErr(e));
        },
    };

    if header.timestamp <= prev.timestamp {
        // Prevent time-warp attacks and some timestamp manipulations by
        // forcing strict time progression.
        return Err(Error::InvalidBlockTime);
    }
    if header.timestamp as i128 > now as i128 + 12 * (BLOCK_TIME_SEC as i128) {
        // Refuse blocks more than twelve block intervals in the future.
        return Err(Error::InvalidBlockTime);
    }

    let prev_hash = rules.header_hash(&prev);
    let prev_hash_difficulty = rules.from_hash(&prev_hash);
    if header.total_difficulty.num as u128
        != prev.total_difficulty.num as u128 + prev_hash_difficulty.num as u128 {
        return Err(Error::WrongTotalDifficulty);
    }

    // Verify the proof of work and related parameters.
    let (difficulty, cuckoo_sz) = rules.next_target(
        header.timestamp, prev.timestamp, prev.difficulty, prev.cuckoo_len,
    );
    if header.difficulty.num < difficulty.num {
        return Err(Error::DifficultyTooLow);
    }
    if header.cuckoo_len != cuckoo_sz && !ctx.opts.easy_pow {
        return Err(Error::WrongCuckooSize);
    }

    if ctx.opts.easy_pow {
        if !rules.verify_pow_size(b, EASY_POW_CUCKOO_SIZE) {
            return Err(Error::InvalidPow);
        }
    } else if !rules.verify_pow(b) {
        return Err(Error::InvalidPow);
    }

    Ok(())
}

/// Tip selection under the single-branch policy: the candidate must extend
/// the head observed at entry, and the provisional tip becomes a copy of
/// that head, not yet advanced.
pub fn set_tip(h: &BlockHeader, ctx: &mut BlockContext) -> (r: Result<(), Error>)
    ensures
        final(ctx).opts == old(ctx).opts,
        final(ctx).head == old(ctx).head,
        match spec_set_tip(*h, old(ctx).head) {
            Ok(t) => r is Ok && final(ctx).tip == Some(t),
            Err(e) => (r matches Err(e2) && e2 == e) && final(ctx).tip == old(ctx).tip,
        },
{
    if h.previous != ctx.head.last_block_h {
        return Err(Error::Unfit(UnfitReason::NoAttachmentPoint));
    }
    ctx.tip = Some(ctx.head);
    Ok(())
}

/// Block-body validation: delegate to the commitment/signature collaborator
/// to confirm the block's values balance and all signatures are valid; any
/// failure is reported as `InvalidBlockProof` carrying the underlying cause.
pub fn validate_block<C: Consensus>(b: &Block, rules: &C) -> (r: Result<(), Error>)
    ensures
        r == match rules.body_valid(*b) {
            Ok(()) => Ok::<(), Error>(()),
            Err(e) => Err(Error::InvalidBlockProof(e)),
        },
{
    match rules.verify_body(b) {
        Ok(()) => Ok(()),
        Err(e) => Err(Error::InvalidBlockProof(e)),
    }
}

/// Append the candidate to the provisional tip, persist its body, and — only
/// once persistence has succeeded — notify the acceptance collaborator. A
/// persistence failure aborts the invocation before notification and before
/// any head update.
pub fn add_block<S: ChainStore, A: ChainAdapter>(
    b: &Block,
    bh: &BlockHash,
    ctx: &mut BlockContext,
    store: &mut S,
    adapter: &mut A,
) -> (r: Result<(), Error>)
    requires
        old(ctx).tip matches Some(t) && t.height < u64::MAX,
    ensures
        final(ctx).opts == old(ctx).opts,
        final(ctx).head == old(ctx).head,
        final(ctx).tip == Some(
            spec_appended_tip(old(ctx).tip->0, *bh, b.header.total_difficulty),
        ),
        r is Ok ==> final(store).saved_blocks() == old(store).saved_blocks().push(*b)
            && final(adapter).accepted() == old(adapter).accepted().push(*b),
        r is Err ==> (r matches Err(Error::StoreErr(_)))
            && final(store).saved_blocks() == old(store).saved_blocks()
            && final(adapter).accepted() == old(adapter).accepted(),
        final(store).saved_heads() == old(store).saved_heads(),
        final(store).stored_head() == old(store).stored_head(),
{
    // Advance the selected tip by the candidate's hash; its declared
    // cumulative difficulty was checked against the parent's by
    // `validate_header`.
    let prev_tip = ctx.tip.unwrap();
    ctx.tip = Some(prev_tip.append(*bh, b.header.total_difficulty));

    // Save the block; a failure here is fatal to the invocation, so the
    // notifier never hears of a block that was not durably stored.
    if let Err(e) = store.save_block(b) {
        return Err(Error::StoreErr(e));
    }

    // Broadcast the block.
    adapter.block_accepted(b);
    Ok(())
}

/// Persist the provisional tip as the new canonical head.
pub fn update_tips<S: ChainStore>(ctx: &BlockContext, store: &mut S) -> (r: Result<(), Error>)
    requires
        ctx.tip is Some,
    ensures
        r is Ok ==> final(store).saved_heads() == old(store).saved_heads().push(ctx.tip->0)
            && final(store).stored_head() == Some(ctx.tip->0),
        r is Err ==> (r matches Err(Error::StoreErr(_)))
            && final(store).saved_heads() == old(store).saved_heads(),
        final(store).saved_blocks() == old(store).saved_blocks(),
{
    let tip = ctx.tip.unwrap();
    match store.save_head(&tip) {
        Ok(()) => Ok(()),
        Err(e) => Err(Error::StoreErr(e)),
    }
}

/// Run the block-processing pipeline against the clock reading `now`:
/// duplicate rejection, header validation, tip selection, body validation,
/// append-and-persist, head update. Returns the new chain head if updated.
///
/// The result is exactly [`pipeline_decision`] over the head and parent read
/// from the store, the consensus rules' verdicts and the clock, unless a
/// store call failed, in which case that failure surfaces as `StoreErr`. On
/// any outcome: the head is persisted exactly once on success and never
/// otherwise; the block is persisted and notified exactly once on success,
/// never on a rejection, and notification happens only if persistence did;
/// and the block log grows only when the decision for this candidate was
/// full acceptance — never for one that failed a check, however a store
/// call fared.
pub fn process_block_at<S: ChainStore, A: ChainAdapter, C: Consensus>(
    b: &Block,
    store: &mut S,
    adapter: &mut A,
    rules: &C,
    opts: Options,
    now: i64,
) -> (r: Result<Option<Tip>, Error>)
    requires
        old(store).stored_head() matches Some(t) ==> t.height < u64::MAX,
    ensures
        ({
            ||| r matches Err(Error::StoreErr(_))
            ||| {
                &&& old(store).stored_head() matches Some(head)
                &&& r == spec_decision_at(
                        *b, head, old(store).header_index(), *rules, now as int, opts,
                    )
                &&& (spec_check_known(rules.hash_of(b.header), head) is Ok
                        && b.header.height <= head.height + 1
                        ==> old(store).header_index().contains_key(b.header.previous))
            }
        }),
        r matches Ok(ot) ==> ot matches Some(t)
            && final(store).saved_heads() == old(store).saved_heads().push(t)
            && final(store).stored_head() == Some(t)
            && final(store).saved_blocks() == old(store).saved_blocks().push(*b)
            && final(adapter).accepted() == old(adapter).accepted().push(*b),
        r is Err ==> final(store).saved_heads() == old(store).saved_heads(),
        r is Err && !(r matches Err(Error::StoreErr(_)))
            ==> final(store).saved_blocks() == old(store).saved_blocks()
                && final(adapter).accepted() == old(adapter).accepted(),
        (final(store).saved_blocks() == old(store).saved_blocks()
            && final(adapter).accepted() == old(adapter).accepted())
        || (final(store).saved_blocks() == old(store).saved_blocks().push(*b)
            && final(adapter).accepted() == old(adapter).accepted().push(*b)),
        final(store).saved_blocks() != old(store).saved_blocks() ==> {
            &&& old(store).stored_head() matches Some(head)
            &&& spec_decision_at(
                    *b, head, old(store).header_index(), *rules, now as int, opts,
                ) matches Ok(_)
        },
{
    let head = match store.head() {
        Ok(t) => t,
        Err(e) => {
            return Err(Error::StoreErr(e));
        },
    };
    let mut ctx = BlockContext { opts, head, tip: None };

    let bh = rules.header_hash(&b.header);
    if let Err(e) = check_known(&bh, &ctx) {
        return Err(e);
    }
    if let Err(e) = validate_header(b, &ctx, store, rules, now) {
        return Err(e);
    }
    if let Err(e) = set_tip(&b.header, &mut ctx) {
        return Err(e);
    }
    if let Err(e) = validate_block(b, rules) {
        return Err(e);
    }
    if let Err(e) = add_block(b, &bh, &mut ctx, store, adapter) {
        return Err(e);
    }
    if let Err(e) = update_tips(&ctx, store) {
        return Err(e);
    }
    Ok(ctx.tip)
}

/// Relies on time::OffsetDateTime::now_utc for the current wall-clock time,
/// reduced to whole seconds since the Unix epoch. Nothing is promised of the
/// value: it is a clock reading.
#[verifier::external_body]
fn now_seconds() -> (r: i64) {
    time::OffsetDateTime::now_utc().unix_timestamp()
}

/// Run the block-processing pipeline against the local clock; see
/// [`process_block_at`], which this calls with the clock reading and whose
/// contract pins the decision for every reading.
///
/// Whatever the clock said: the result is the pipeline decision for some
/// clock reading, or a surfaced store failure, so an accepted candidate
/// passed every check; a duplicate of the head (or of the block before it)
/// is never accepted; a non-duplicate candidate more than one block past the
/// head is rejected as an orphan unless a store failure surfaced; the head
/// is persisted exactly once on success and never otherwise; the block is
/// persisted and notified exactly once, and only when the decision was full
/// acceptance; and an accepted candidate advances the head by exactly one
/// block, to its own hash and declared cumulative difficulty.
pub fn process_block<S: ChainStore, A: ChainAdapter, C: Consensus>(
    b: &Block,
    store: &mut S,
    adapter: &mut A,
    rules: &C,
    opts: Options,
) -> (r: Result<Option<Tip>, Error>)
    requires
        old(store).stored_head() matches Some(t) ==> t.height < u64::MAX,
    ensures
        ({
            ||| r matches Err(Error::StoreErr(_))
            ||| {
                &&& old(store).stored_head() matches Some(head)
                &&& (exists|n: int| r == spec_decision_at(
                        *b, head, old(store).header_index(), *rules, n, opts,
                    ))
                &&& (spec_check_known(rules.hash_of(b.header), head) is Ok
                        && b.header.height <= head.height + 1
                        ==> old(store).header_index().contains_key(b.header.previous))
            }
        }),
        old(store).stored_head() matches Some(head)
            && (rules.hash_of(b.header) == head.last_block_h
                || rules.hash_of(b.header) == head.prev_block_h)
            ==> r == Err::<Option<Tip>, Error>(Error::Unfit(UnfitReason::AlreadyKnown))
                || r matches Err(Error::StoreErr(_)),
        old(store).stored_head() matches Some(head)
            && spec_check_known(rules.hash_of(b.header), head) is Ok
            && b.header.height > head.height + 1
            ==> r == Err::<Option<Tip>, Error>(Error::Unfit(UnfitReason::Orphan))
                || r matches Err(Error::StoreErr(_)),
        r matches Ok(ot) ==> ot matches Some(t)
            && old(store).stored_head() matches Some(head)
            && t == spec_appended_tip(head, rules.hash_of(b.header), b.header.total_difficulty)
            && final(store).saved_heads() == old(store).saved_heads().push(t)
            && final(store).stored_head() == Some(t)
            && final(store).saved_blocks() == old(store).saved_blocks().push(*b)
            && final(adapter).accepted() == old(adapter).accepted().push(*b),
        r is Err ==> final(store).saved_heads() == old(store).saved_heads(),
        r is Err && !(r matches Err(Error::StoreErr(_)))
            ==> final(store).saved_blocks() == old(store).saved_blocks()
                && final(adapter).accepted() == old(adapter).accepted(),
        (final(store).saved_blocks() == old(store).saved_blocks()
            && final(adapter).accepted() == old(adapter).accepted())
        || (final(store).saved_blocks() == old(store).saved_blocks().push(*b)
            && final(adapter).accepted() == old(adapter).accepted().push(*b)),
        final(store).saved_blocks() != old(store).saved_blocks() ==> {
            &&& old(store).stored_head() matches Some(head)
            &&& (exists|n: int| (#[trigger] spec_decision_at(
                    *b, head, old(store).header_index(), *rules, n, opts,
                )) matches Ok(_))
        },
{
    let now = now_seconds();
    process_block_at(b, store, adapter, rules, opts, now)
}

} // verus!
