//! End-to-end tests of the block-acceptance pipeline, run against in-memory
//! spy collaborators that record every call.

use std::cell::Cell;
use std::cell::RefCell;
use std::rc::Rc;

use chain::error::{CryptoError, Error, StoreError, UnfitReason};
use chain::pipe::{process_block, process_block_at};
use chain::types::{
    Block, BlockHash, BlockHeader, ChainAdapter, ChainStore, Consensus, Difficulty, Options,
    Proof, Tip, EASY_POW_CUCKOO_SIZE,
};

/// The order-sensitive log of writes and notifications one invocation made.
type Events = Rc<RefCell<Vec<&'static str>>>;

/// An in-memory chain-state accessor that records what the pipeline does to
/// it and can be told to fail any operation.
struct MemStore {
    head: Result<Tip, StoreError>,
    headers: Vec<(BlockHash, BlockHeader)>,
    saved_blocks: RefCell<Vec<Block>>,
    saved_heads: RefCell<Vec<Tip>>,
    fail_save_block: bool,
    fail_save_head: bool,
    get_header_calls: Cell<usize>,
    events: Events,
}

impl MemStore {
    fn new(head: Tip, headers: Vec<(BlockHash, BlockHeader)>, events: Events) -> MemStore {
        MemStore {
            head: Ok(head),
            headers,
            saved_blocks: RefCell::new(Vec::new()),
            saved_heads: RefCell::new(Vec::new()),
            fail_save_block: false,
            fail_save_head: false,
            get_header_calls: Cell::new(0),
            events,
        }
    }
}

impl ChainStore for MemStore {
    fn head(&self) -> Result<Tip, StoreError> {
        self.head
    }

    fn get_block_header(&self, h: &BlockHash) -> Result<BlockHeader, StoreError> {
        self.get_header_calls.set(self.get_header_calls.get() + 1);
        for (k, v) in self.headers.iter() {
            if k == h {
                return Ok(v.clone());
            }
        }
        Err(StoreError::NotFound)
    }

    fn save_block(&mut self, b: &Block) -> Result<(), StoreError> {
        if self.fail_save_block {
            return Err(StoreError::Storage);
        }
        self.events.borrow_mut().push("save_block");
        self.saved_blocks.borrow_mut().push(b.clone());
        Ok(())
    }

    fn save_head(&mut self, t: &Tip) -> Result<(), StoreError> {
        if self.fail_save_head {
            return Err(StoreError::Storage);
        }
        self.events.borrow_mut().push("save_head");
        self.saved_heads.borrow_mut().push(*t);
        Ok(())
    }
}

/// An acceptance notifier that records every callback.
struct SpyAdapter {
    accepted: Vec<Block>,
    events: Events,
}

impl SpyAdapter {
    fn new(events: Events) -> SpyAdapter {
        SpyAdapter { accepted: Vec::new(), events }
    }
}

impl ChainAdapter for SpyAdapter {
    fn block_accepted(&mut self, b: &Block) {
        self.events.borrow_mut().push("notify");
        self.accepted.push(b.clone());
    }
}

/// Consensus rules for tests: hashing is a function of the header's height,
/// every hash implies a difficulty of 1000, and the retarget function,
/// proof-of-work verdicts and body verdict are fixed by the fields below.
struct TestRules {
    expected_diff: u64,
    expected_cuckoo: u32,
    pow_ok: bool,
    pow_easy_ok: bool,
    body: Result<(), CryptoError>,
    next_target_calls: Cell<usize>,
    pow_calls: Cell<usize>,
    last_size_bound: Cell<u32>,
}

impl TestRules {
    fn new() -> TestRules {
        TestRules {
            expected_diff: 10,
            expected_cuckoo: 30,
            pow_ok: true,
            pow_easy_ok: true,
            body: Ok(()),
            next_target_calls: Cell::new(0),
            pow_calls: Cell::new(0),
            last_size_bound: Cell::new(0),
        }
    }
}

/// The hash TestRules assigns to a header of the given height.
fn hash_at(height: u64) -> BlockHash {
    BlockHash(height, 7, 7, 7)
}

/// The difficulty TestRules says every hash implies.
const HASH_DIFF: u64 = 1000;

impl Consensus for TestRules {
    fn header_hash(&self, h: &BlockHeader) -> BlockHash {
        hash_at(h.height)
    }

    fn from_hash(&self, _h: &BlockHash) -> Difficulty {
        Difficulty { num: HASH_DIFF }
    }

    fn next_target(
        &self,
        _ts: i64,
        _prev_ts: i64,
        _prev_diff: Difficulty,
        _prev_cuckoo: u32,
    ) -> (Difficulty, u32) {
        self.next_target_calls.set(self.next_target_calls.get() + 1);
        (Difficulty { num: self.expected_diff }, self.expected_cuckoo)
    }

    fn verify_pow(&self, _b: &Block) -> bool {
        self.pow_calls.set(self.pow_calls.get() + 1);
        self.pow_ok
    }

    fn verify_pow_size(&self, _b: &Block, size: u32) -> bool {
        self.pow_calls.set(self.pow_calls.get() + 1);
        self.last_size_bound.set(size);
        self.pow_easy_ok
    }

    fn verify_body(&self, _b: &Block) -> Result<(), CryptoError> {
        self.body
    }
}

const PARENT_TS: i64 = 1000;
const NOW: i64 = 1100;

/// The parent block header sitting at the head of the test chain.
fn parent_header() -> BlockHeader {
    BlockHeader {
        height: 100,
        previous: hash_at(99),
        timestamp: PARENT_TS,
        total_difficulty: Difficulty { num: 5000 },
        difficulty: Difficulty { num: 10 },
        cuckoo_len: 30,
        pow: Proof { nonces: vec![1, 2, 3] },
    }
}

/// The head tip pointing at the parent block.
fn head_tip() -> Tip {
    Tip {
        height: 100,
        last_block_h: hash_at(100),
        prev_block_h: hash_at(99),
        total_difficulty: Difficulty { num: 5000 },
    }
}

/// A candidate that extends the head and passes every check under TestRules.
fn good_candidate() -> Block {
    Block {
        header: BlockHeader {
            height: 101,
            previous: hash_at(100),
            timestamp: PARENT_TS + 1,
            total_difficulty: Difficulty { num: 5000 + HASH_DIFF },
            difficulty: Difficulty { num: 10 },
            cuckoo_len: 30,
            pow: Proof { nonces: vec![4, 5, 6] },
        },
        body: vec![1, 2, 3, 4],
    }
}

/// A store holding the parent header under the head's last-block hash.
fn fresh_store(events: &Events) -> MemStore {
    MemStore::new(
        head_tip(),
        vec![(hash_at(100), parent_header())],
        Rc::clone(events),
    )
}

fn no_easy() -> Options {
    Options { easy_pow: false }
}

fn run(
    b: &Block,
    store: &mut MemStore,
    adapter: &mut SpyAdapter,
    rules: &TestRules,
    opts: Options,
) -> Result<Option<Tip>, Error> {
    process_block_at(b, store, adapter, rules, opts, NOW)
}

/// Asserts the outcome every rejection owes: no head saved, no notification.
fn assert_nothing_persisted(store: &MemStore, adapter: &SpyAdapter) {
    assert_eq!(store.saved_heads.borrow().len(), 0);
    assert_eq!(adapter.accepted.len(), 0);
}

#[test]
fn acceptance_advances_head() {
    let events: Events = Rc::new(RefCell::new(Vec::new()));
    let mut store = fresh_store(&events);
    let mut adapter = SpyAdapter::new(Rc::clone(&events));
    let rules = TestRules::new();
    let b = good_candidate();

    let r = run(&b, &mut store, &mut adapter, &rules, no_easy());

    let want = Tip {
        height: 101,
        last_block_h: hash_at(101),
        prev_block_h: hash_at(100),
        total_difficulty: Difficulty { num: 6000 },
    };
    assert_eq!(r, Ok(Some(want)));
    assert_eq!(store.saved_blocks.borrow().len(), 1);
    assert_eq!(store.saved_blocks.borrow()[0], b);
    assert_eq!(store.saved_heads.borrow().len(), 1);
    assert_eq!(store.saved_heads.borrow()[0], want);
    assert_eq!(adapter.accepted.len(), 1);
    assert_eq!(adapter.accepted[0], b);
    // The block is persisted before anyone is notified, and the head moves last.
    assert_eq!(*events.borrow(), vec!["save_block", "notify", "save_head"]);
}

#[test]
fn acceptance_with_real_clock() {
    // Timestamps near the epoch sit far in the past of any real clock
    // reading, so the future-time bound cannot fire and the outcome does not
    // depend on when the test runs.
    let events: Events = Rc::new(RefCell::new(Vec::new()));
    let mut store = fresh_store(&events);
    let mut adapter = SpyAdapter::new(Rc::clone(&events));
    let rules = TestRules::new();
    let b = good_candidate();

    let r = process_block(&b, &mut store, &mut adapter, &rules, no_easy());

    assert!(matches!(r, Ok(Some(_))));
    assert_eq!(store.saved_heads.borrow().len(), 1);
}

#[test]
fn duplicate_of_head_rejected_before_validation() {
    let events: Events = Rc::new(RefCell::new(Vec::new()));
    let mut store = fresh_store(&events);
    let mut adapter = SpyAdapter::new(Rc::clone(&events));
    let rules = TestRules::new();
    // Height 100 hashes to the head's own last-block hash.
    let mut b = good_candidate();
    b.header.height = 100;

    let r = run(&b, &mut store, &mut adapter, &rules, no_easy());

    assert_eq!(r, Err(Error::Unfit(UnfitReason::AlreadyKnown)));
    // Header validation never ran: no parent lookup, no retarget, no proof.
    assert_eq!(store.get_header_calls.get(), 0);
    assert_eq!(rules.next_target_calls.get(), 0);
    assert_eq!(rules.pow_calls.get(), 0);
    assert_nothing_persisted(&store, &adapter);
}

#[test]
fn duplicate_of_previous_rejected_before_validation() {
    let events: Events = Rc::new(RefCell::new(Vec::new()));
    let mut store = fresh_store(&events);
    let mut adapter = SpyAdapter::new(Rc::clone(&events));
    let rules = TestRules::new();
    // Height 99 hashes to the head's previous-block hash.
    let mut b = good_candidate();
    b.header.height = 99;

    let r = run(&b, &mut store, &mut adapter, &rules, no_easy());

    assert_eq!(r, Err(Error::Unfit(UnfitReason::AlreadyKnown)));
    assert_eq!(store.get_header_calls.get(), 0);
    assert_eq!(rules.next_target_calls.get(), 0);
    assert_nothing_persisted(&store, &adapter);
}

#[test]
fn orphan_rejected() {
    let events: Events = Rc::new(RefCell::new(Vec::new()));
    let mut store = fresh_store(&events);
    let mut adapter = SpyAdapter::new(Rc::clone(&events));
    let rules = TestRules::new();
    let mut b = good_candidate();
    b.header.height = 103;

    let r = run(&b, &mut store, &mut adapter, &rules, no_easy());

    assert_eq!(r, Err(Error::Unfit(UnfitReason::Orphan)));
    // The height bound is checked before the parent is ever looked up.
    assert_eq!(store.get_header_calls.get(), 0);
    assert_eq!(store.saved_blocks.borrow().len(), 0);
    assert_nothing_persisted(&store, &adapter);
}

#[test]
fn stale_timestamp_rejected() {
    let events: Events = Rc::new(RefCell::new(Vec::new()));
    let mut store = fresh_store(&events);
    let mut adapter = SpyAdapter::new(Rc::clone(&events));
    let rules = TestRules::new();
    let mut b = good_candidate();
    b.header.timestamp = PARENT_TS;

    let r = run(&b, &mut store, &mut adapter, &rules, no_easy());

    assert_eq!(r, Err(Error::InvalidBlockTime));
    assert_nothing_persisted(&store, &adapter);
}

#[test]
fn earlier_timestamp_rejected() {
    let events: Events = Rc::new(RefCell::new(Vec::new()));
    let mut store = fresh_store(&events);
    let mut adapter = SpyAdapter::new(Rc::clone(&events));
    let rules = TestRules::new();
    let mut b = good_candidate();
    b.header.timestamp = PARENT_TS - 5;

    let r = run(&b, &mut store, &mut adapter, &rules, no_easy());

    assert_eq!(r, Err(Error::InvalidBlockTime));
    assert_nothing_persisted(&store, &adapter);
}

#[test]
fn future_timestamp_rejected() {
    let events: Events = Rc::new(RefCell::new(Vec::new()));
    let mut store = fresh_store(&events);
    let mut adapter = SpyAdapter::new(Rc::clone(&events));
    let rules = TestRules::new();
    let mut b = good_candidate();
    // One second past twelve nominal block intervals from the clock.
    b.header.timestamp = NOW + 12 * 60 + 1;

    let r = run(&b, &mut store, &mut adapter, &rules, no_easy());

    assert_eq!(r, Err(Error::InvalidBlockTime));
    assert_nothing_persisted(&store, &adapter);
}

#[test]
fn timestamp_at_future_bound_accepted() {
    let events: Events = Rc::new(RefCell::new(Vec::new()));
    let mut store = fresh_store(&events);
    let mut adapter = SpyAdapter::new(Rc::clone(&events));
    let rules = TestRules::new();
    let mut b = good_candidate();
    // Exactly twelve block intervals ahead is still allowed.
    b.header.timestamp = NOW + 12 * 60;

    let r = run(&b, &mut store, &mut adapter, &rules, no_easy());

    assert!(matches!(r, Ok(Some(_))));
}

#[test]
fn wrong_total_difficulty_rejected() {
    let events: Events = Rc::new(RefCell::new(Vec::new()));
    let mut store = fresh_store(&events);
    let mut adapter = SpyAdapter::new(Rc::clone(&events));
    let rules = TestRules::new();
    let mut b = good_candidate();
    b.header.total_difficulty = Difficulty { num: 5999 };

    let r = run(&b, &mut store, &mut adapter, &rules, no_easy());

    assert_eq!(r, Err(Error::WrongTotalDifficulty));
    assert_nothing_persisted(&store, &adapter);
}

#[test]
fn difficulty_too_low_rejected() {
    let events: Events = Rc::new(RefCell::new(Vec::new()));
    let mut store = fresh_store(&events);
    let mut adapter = SpyAdapter::new(Rc::clone(&events));
    let rules = TestRules::new();
    let mut b = good_candidate();
    b.header.difficulty = Difficulty { num: 9 };

    let r = run(&b, &mut store, &mut adapter, &rules, no_easy());

    assert_eq!(r, Err(Error::DifficultyTooLow));
    assert_nothing_persisted(&store, &adapter);
}

#[test]
fn wrong_cuckoo_size_rejected() {
    let events: Events = Rc::new(RefCell::new(Vec::new()));
    let mut store = fresh_store(&events);
    let mut adapter = SpyAdapter::new(Rc::clone(&events));
    let rules = TestRules::new();
    let mut b = good_candidate();
    b.header.cuckoo_len = 31;

    let r = run(&b, &mut store, &mut adapter, &rules, no_easy());

    assert_eq!(r, Err(Error::WrongCuckooSize));
    assert_nothing_persisted(&store, &adapter);
}

#[test]
fn cuckoo_size_skipped_in_relaxed_mode() {
    let events: Events = Rc::new(RefCell::new(Vec::new()));
    let mut store = fresh_store(&events);
    let mut adapter = SpyAdapter::new(Rc::clone(&events));
    let rules = TestRules::new();
    let mut b = good_candidate();
    b.header.cuckoo_len = 31;

    let r = run(&b, &mut store, &mut adapter, &rules, Options { easy_pow: true });

    // The size mismatch is ignored and the proof is checked against the
    // reduced bound instead of the expected parameters.
    assert!(matches!(r, Ok(Some(_))));
    assert_eq!(rules.last_size_bound.get(), EASY_POW_CUCKOO_SIZE);
}

#[test]
fn invalid_pow_rejected() {
    let events: Events = Rc::new(RefCell::new(Vec::new()));
    let mut store = fresh_store(&events);
    let mut adapter = SpyAdapter::new(Rc::clone(&events));
    let mut rules = TestRules::new();
    rules.pow_ok = false;
    let b = good_candidate();

    let r = run(&b, &mut store, &mut adapter, &rules, no_easy());

    assert_eq!(r, Err(Error::InvalidPow));
    assert_nothing_persisted(&store, &adapter);
}

#[test]
fn invalid_easy_pow_rejected() {
    let events: Events = Rc::new(RefCell::new(Vec::new()));
    let mut store = fresh_store(&events);
    let mut adapter = SpyAdapter::new(Rc::clone(&events));
    let mut rules = TestRules::new();
    rules.pow_easy_ok = false;
    // The full verdict being fine must not matter in relaxed mode.
    rules.pow_ok = true;
    let b = good_candidate();

    let r = run(&b, &mut store, &mut adapter, &rules, Options { easy_pow: true });

    assert_eq!(r, Err(Error::InvalidPow));
    assert_nothing_persisted(&store, &adapter);
}

#[test]
fn no_attachment_point_rejected() {
    let events: Events = Rc::new(RefCell::new(Vec::new()));
    // The candidate names a parent the store knows, but that parent is not
    // the head: there is nowhere to attach under the single-branch policy.
    let side_hash = BlockHash(42, 42, 42, 42);
    let mut side_parent = parent_header();
    side_parent.previous = hash_at(98);
    let mut store = MemStore::new(
        head_tip(),
        vec![(hash_at(100), parent_header()), (side_hash, side_parent)],
        Rc::clone(&events),
    );
    let mut adapter = SpyAdapter::new(Rc::clone(&events));
    let rules = TestRules::new();
    let mut b = good_candidate();
    b.header.previous = side_hash;

    let r = run(&b, &mut store, &mut adapter, &rules, no_easy());

    assert_eq!(r, Err(Error::Unfit(UnfitReason::NoAttachmentPoint)));
    assert_eq!(store.saved_blocks.borrow().len(), 0);
    assert_nothing_persisted(&store, &adapter);
}

#[test]
fn invalid_body_rejected_with_cause() {
    let events: Events = Rc::new(RefCell::new(Vec::new()));
    let mut store = fresh_store(&events);
    let mut adapter = SpyAdapter::new(Rc::clone(&events));
    let mut rules = TestRules::new();
    rules.body = Err(CryptoError::IncorrectSum);
    let b = good_candidate();

    let r = run(&b, &mut store, &mut adapter, &rules, no_easy());

    assert_eq!(r, Err(Error::InvalidBlockProof(CryptoError::IncorrectSum)));
    assert_eq!(store.saved_blocks.borrow().len(), 0);
    assert_nothing_persisted(&store, &adapter);
}

#[test]
fn head_read_failure_surfaces() {
    let events: Events = Rc::new(RefCell::new(Vec::new()));
    let mut store = fresh_store(&events);
    store.head = Err(StoreError::Storage);
    let mut adapter = SpyAdapter::new(Rc::clone(&events));
    let rules = TestRules::new();
    let b = good_candidate();

    let r = run(&b, &mut store, &mut adapter, &rules, no_easy());

    assert_eq!(r, Err(Error::StoreErr(StoreError::Storage)));
    assert_nothing_persisted(&store, &adapter);
}

#[test]
fn missing_parent_surfaces_as_store_error() {
    let events: Events = Rc::new(RefCell::new(Vec::new()));
    let mut store = MemStore::new(head_tip(), Vec::new(), Rc::clone(&events));
    let mut adapter = SpyAdapter::new(Rc::clone(&events));
    let rules = TestRules::new();
    let b = good_candidate();

    let r = run(&b, &mut store, &mut adapter, &rules, no_easy());

    assert_eq!(r, Err(Error::StoreErr(StoreError::NotFound)));
    assert_nothing_persisted(&store, &adapter);
}

#[test]
fn block_persist_failure_aborts_before_notification() {
    let events: Events = Rc::new(RefCell::new(Vec::new()));
    let mut store = fresh_store(&events);
    store.fail_save_block = true;
    let mut adapter = SpyAdapter::new(Rc::clone(&events));
    let rules = TestRules::new();
    let b = good_candidate();

    let r = run(&b, &mut store, &mut adapter, &rules, no_easy());

    assert_eq!(r, Err(Error::StoreErr(StoreError::Storage)));
    // The notifier never hears of a block that was not durably stored, and
    // the head is never updated.
    assert_eq!(adapter.accepted.len(), 0);
    assert_eq!(store.saved_heads.borrow().len(), 0);
    assert_eq!(store.saved_blocks.borrow().len(), 0);
}

#[test]
fn head_persist_failure_surfaces() {
    let events: Events = Rc::new(RefCell::new(Vec::new()));
    let mut store = fresh_store(&events);
    store.fail_save_head = true;
    let mut adapter = SpyAdapter::new(Rc::clone(&events));
    let rules = TestRules::new();
    let b = good_candidate();

    let r = run(&b, &mut store, &mut adapter, &rules, no_easy());

    assert_eq!(r, Err(Error::StoreErr(StoreError::Storage)));
    // The block itself was persisted and broadcast before the head write
    // failed, but no head was saved.
    assert_eq!(store.saved_blocks.borrow().len(), 1);
    assert_eq!(adapter.accepted.len(), 1);
    assert_eq!(store.saved_heads.borrow().len(), 0);
}

#[test]
fn append_derives_next_tip() {
    let t = head_tip();
    let appended = t.append(hash_at(101), Difficulty { num: 6000 });
    assert_eq!(appended.height, 101);
    assert_eq!(appended.last_block_h, hash_at(101));
    assert_eq!(appended.prev_block_h, hash_at(100));
    assert_eq!(appended.total_difficulty, Difficulty { num: 6000 });
}
