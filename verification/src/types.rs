//! Data model of the pipeline — hashes, difficulty, headers, blocks, chain
//! tips, validation options — and the collaborator traits through which the
//! pipeline reaches persistence, consensus rules and acceptance notification.

use vstd::prelude::*;
use vstd::pervasive::arbitrary;
use crate::error::{CryptoError, StoreError};

verus! {

/// The nominal spacing between blocks, in seconds. A candidate whose
/// timestamp lies more than twelve of these intervals past the local clock
/// is rejected.
pub const BLOCK_TIME_SEC: u64 = 60;

/// The reduced proof-size bound used when proof-of-work checking runs in
/// relaxed mode, to make test fixtures cheap to mine.
pub const EASY_POW_CUCKOO_SIZE: u32 = 16;

/// A 256-bit block hash, stored as four 64-bit words.
#[derive(Clone, Copy, Debug, PartialEq, Eq, Structural)]
pub struct BlockHash(pub u64, pub u64, pub u64, pub u64);

/// A proof-of-work difficulty, or a cumulative sum of difficulties.
#[derive(Clone, Copy, Debug, PartialEq, Eq, Structural)]
pub struct Difficulty {
    pub num: u64,
}

/// The proof-of-work solution carried in a block header: the nonces of the
/// cycle found in the puzzle graph. Opaque to the pipeline, which hands it
/// to the proof-of-work collaborator.
#[derive(Clone, Debug, PartialEq, Eq)]
pub struct Proof {
    pub nonces: Vec<u64>,
}

/// A block header: everything the header-validation stage reads. Immutable
/// once constructed.
#[derive(Clone, Debug, PartialEq, Eq)]
pub struct BlockHeader {
    /// Height of this block in the chain.
    pub height: u64,
    /// Hash of the previous block's header.
    pub previous: BlockHash,
    /// When the block was mined, in seconds since the Unix epoch.
    pub timestamp: i64,
    /// Cumulative difficulty of the chain up to and including this block,
    /// as declared by the miner.
    pub total_difficulty: Difficulty,
    /// Difficulty this block claims to meet.
    pub difficulty: Difficulty,
    /// The proof-size parameter: how large a puzzle graph the proof of work
    /// was solved on.
    pub cuckoo_len: u32,
    /// The proof-of-work solution itself.
    pub pow: Proof,
}

/// A full block: a header plus the body content the commitment/signature
/// collaborator verifies. The pipeline never reads the body itself.
#[derive(Clone, Debug, PartialEq, Eq)]
pub struct Block {
    pub header: BlockHeader,
    /// Serialized transaction data, opaque to the pipeline.
    pub body: Vec<u8>,
}

/// The node's view of a chain head. A `Tip` is a value: a new one is derived
/// by appending a block hash, never by mutation in place.
#[derive(Clone, Copy, Debug, PartialEq, Eq, Structural)]
pub struct Tip {
    /// Number of blocks up to and including the last one.
    pub height: u64,
    /// Hash of the last block in the chain.
    pub last_block_h: BlockHash,
    /// Hash of the block before the last one.
    pub prev_block_h: BlockHash,
    /// Cumulative difficulty up to and including the last block.
    pub total_difficulty: Difficulty,
}

/// The tip obtained by appending one block of hash `bh` to `t`, with `total`
/// the cumulative difficulty including the appended block.
pub open spec fn spec_appended_tip(t: Tip, bh: BlockHash, total: Difficulty) -> Tip {
    Tip {
        height: (t.height + 1) as u64,
        last_block_h: bh,
        prev_block_h: t.last_block_h,
        total_difficulty: total,
    }
}

impl Tip {
    /// Derive the tip that results from appending one block: the height grows
    /// by one, the appended hash becomes the last one, the old last hash moves
    /// back one place, and the cumulative difficulty becomes `total`.
    pub fn append(&self, bh: BlockHash, total: Difficulty) -> (t: Tip)
        requires
            self.height < u64::MAX,
        ensures
            t == spec_appended_tip(*self, bh, total),
    {
        Tip {
            height: self.height + 1,
            last_block_h: bh,
            prev_block_h: self.last_block_h,
            total_difficulty: total,
        }
    }
}

/// Options for block validation: a set of independently named toggles.
#[derive(Clone, Copy, Debug, PartialEq, Eq, Structural)]
pub struct Options {
    /// Run with the easier version of the proof of work, mostly to make
    /// testing easier: the proof-size check is skipped and the proof is
    /// verified against `EASY_POW_CUCKOO_SIZE` instead of the expected size.
    pub easy_pow: bool,
}

/// The chain-state accessor: the persistence collaborator the pipeline reads
/// the current head and historical headers from, and writes accepted blocks
/// and the new head to.
///
/// Implementations live outside the verified library (a disk or in-memory
/// store); the contracts below are what the pipeline's own guarantees rest
/// on. Each spec function is an observation of the store: the head pointer,
/// the headers reachable by hash, and the cumulative logs of successful
/// block and head writes. A failed write changes nothing.
pub trait ChainStore {
    /// The head pointer the store currently holds, if any.
    open spec fn stored_head(&self) -> Option<Tip> {
        arbitrary()
    }

    /// The block headers the store can look up, by their hash.
    open spec fn header_index(&self) -> Map<BlockHash, BlockHeader> {
        arbitrary()
    }

    /// Every block successfully saved so far, in order.
    open spec fn saved_blocks(&self) -> Seq<Block> {
        arbitrary()
    }

    /// Every head successfully saved so far, in order.
    open spec fn saved_heads(&self) -> Seq<Tip> {
        arbitrary()
    }

    /// Read the current head. May fail transiently; a successful read
    /// returns the stored head pointer.
    fn head(&self) -> (r: Result<Tip, StoreError>)
        ensures
            r matches Ok(t) ==> self.stored_head() == Some(t),
    ;

    /// Look a block header up by its hash. May fail even for a present
    /// header; a successful read returns the indexed header.
    fn get_block_header(&self, h: &BlockHash) -> (r: Result<BlockHeader, StoreError>)
        ensures
            r matches Ok(hdr) ==> self.header_index().contains_key(*h)
                && hdr == self.header_index()[*h],
    ;

    /// Persist a block body. On success the block is appended to the log of
    /// saved blocks; on failure nothing is saved. The head logs are never
    /// touched.
    fn save_block(&mut self, b: &Block) -> (r: Result<(), StoreError>)
        ensures
            r is Ok ==> final(self).saved_blocks() == old(self).saved_blocks().push(*b),
            r is Err ==> final(self).saved_blocks() == old(self).saved_blocks(),
            final(self).saved_heads() == old(self).saved_heads(),
            final(self).stored_head() == old(self).stored_head(),
    ;

    /// Persist a new head pointer. On success the tip is appended to the log
    /// of saved heads and becomes the stored head; on failure nothing
    /// changes. The block log is never touched.
    fn save_head(&mut self, t: &Tip) -> (r: Result<(), StoreError>)
        ensures
            r is Ok ==> final(self).saved_heads() == old(self).saved_heads().push(*t)
                && final(self).stored_head() == Some(*t),
            r is Err ==> final(self).saved_heads() == old(self).saved_heads()
                && final(self).stored_head() == old(self).stored_head(),
            final(self).saved_blocks() == old(self).saved_blocks(),
    ;
}

/// The acceptance notifier: called back, fire and forget, once a block has
/// been durably accepted. The spec function is the log of notifications
/// delivered so far.
pub trait ChainAdapter {
    /// Every block this adapter has been told about, in order.
    open spec fn accepted(&self) -> Seq<Block> {
        arbitrary()
    }

    /// Notify that `b` has been accepted. No failure path affects the
    /// pipeline's result.
    fn block_accepted(&mut self, b: &Block)
        ensures
            final(self).accepted() == old(self).accepted().push(*b),
    ;
}

/// The consensus rules the pipeline defers to: header hashing, the
/// difficulty a hash implies, the difficulty-retarget function, the
/// proof-of-work verifier and the commitment/signature verifier.
///
/// Each of these is a deterministic function of its arguments, which the
/// contracts state by tying every call's result to a spec-level observation
/// of the same instance.
pub trait Consensus {
    /// What a header hashes to.
    open spec fn hash_of(&self, h: BlockHeader) -> BlockHash {
        arbitrary()
    }

    /// The difficulty a block hash implies: how much work that hash shows.
    open spec fn difficulty_from_hash(&self, h: BlockHash) -> Difficulty {
        arbitrary()
    }

    /// The (difficulty, proof-size) pair the retarget function requires of a
    /// block mined at `ts` whose parent was mined at `prev_ts` with the given
    /// difficulty and proof size.
    open spec fn next_target_of(&self, ts: int, prev_ts: int, prev_diff: Difficulty, prev_cuckoo: u32) -> (Difficulty, u32) {
        arbitrary()
    }

    /// Whether a block's proof of work verifies against the full expected
    /// parameters.
    open spec fn pow_valid(&self, b: Block) -> bool {
        arbitrary()
    }

    /// Whether a block's proof of work verifies against the reduced size
    /// bound `size`.
    open spec fn pow_valid_at_size(&self, b: Block, size: u32) -> bool {
        arbitrary()
    }

    /// Whether a block's values balance and all its signatures verify, and
    /// if not, why.
    open spec fn body_valid(&self, b: Block) -> Result<(), CryptoError> {
        arbitrary()
    }

    /// Hash a block header.
    fn header_hash(&self, h: &BlockHeader) -> (r: BlockHash)
        ensures
            r == self.hash_of(*h),
    ;

    /// The difficulty implied by a block hash.
    fn from_hash(&self, h: &BlockHash) -> (r: Difficulty)
        ensures
            r == self.difficulty_from_hash(*h),
    ;

    /// The difficulty and proof-size parameter the next block must meet,
    /// computed from the timestamps and the parent's difficulty and proof
    /// size. A pure function of its inputs.
    fn next_target(&self, ts: i64, prev_ts: i64, prev_diff: Difficulty, prev_cuckoo: u32) -> (r: (Difficulty, u32))
        ensures
            r == self.next_target_of(ts as int, prev_ts as int, prev_diff, prev_cuckoo),
    ;

    /// Verify a block's proof of work against the full expected parameters.
    fn verify_pow(&self, b: &Block) -> (r: bool)
        ensures
            r == self.pow_valid(*b),
    ;

    /// Verify a block's proof of work against the reduced bound `size`.
    fn verify_pow_size(&self, b: &Block, size: u32) -> (r: bool)
        ensures
            r == self.pow_valid_at_size(*b, size),
    ;

    /// Verify that the block's values balance and its signatures are valid.
    fn verify_body(&self, b: &Block) -> (r: Result<(), CryptoError>)
        ensures
            r == self.body_valid(*b),
    ;
}

} // verus!
