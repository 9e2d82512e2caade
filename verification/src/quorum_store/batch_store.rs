//! Stores completed batches by their digest, within a budget of memory and a
//! budget of disk, until they have expired and a grace period has passed.

use crate::account_address::PeerId;
use crate::logical_time::{time_lt, LogicalTime, Round};
use crate::quorum_store::types::{
    payload_view, HashValue, PersistRequest, SerializedTransaction,
};
use vstd::prelude::*;

verus! {

/// What the batch store is asked to do.
#[derive(Debug)]
pub enum BatchStoreCommand {
    /// Store this batch.
    Persist(PersistRequest),
    /// Stop.
    Shutdown,
}

/// What became of a request to store a batch.
#[derive(Clone, Copy, Debug, PartialEq, Eq, Structural)]
pub enum PersistOutcome {
    /// The batch is stored now, on disk and in memory.
    StoredInMemory,
    /// The batch is stored now, on disk only: the memory budget is used up.
    StoredOnDisk,
    /// A batch with this digest was stored before; nothing changed.
    AlreadyStored,
    /// The disk budget does not allow for the batch; nothing changed.
    QuotaExceeded,
    /// The batch expires later than a batch may; nothing changed.
    ExpirationTooFar,
}

/// A stored batch, as plain values.
pub struct StoredBatch {
    pub digest: HashValue,
    pub author: PeerId,
    pub payload: Seq<Seq<u8>>,
    pub num_bytes: nat,
    pub expiration: (int, int),
    /// Whether the payload is held in memory too.
    pub in_memory: bool,
}

/// What a batch store holds, as plain values.
pub struct BatchStoreView {
    pub epoch: u64,
    /// The last round that is known to be committed.
    pub last_committed_round: Round,
    /// The batches stored, in the order in which they came.
    pub batches: Seq<StoredBatch>,
    /// Bytes of memory still free.
    pub memory_balance: nat,
    /// Bytes of disk still free.
    pub db_balance: nat,
    /// Rounds for which an expired batch is still kept.
    pub grace_rounds: Round,
    /// The most rounds after the last committed round at which a batch may
    /// expire.
    pub max_expiry_gap: Round,
}

/// A request to store a batch, as plain values.
pub struct PersistRequestView {
    pub digest: HashValue,
    pub author: PeerId,
    pub payload: Seq<Seq<u8>>,
    pub num_bytes: nat,
    pub expiration: (int, int),
}

/// The plain values of `request`.
pub open spec fn request_view(request: PersistRequest) -> PersistRequestView {
    PersistRequestView {
        digest: request.digest,
        author: request.author,
        payload: payload_view(request.payload@),
        num_bytes: request.num_bytes as nat,
        expiration: request.expiration@,
    }
}

/// Whether `batches` hold a batch with `digest`.
pub open spec fn holds(batches: Seq<StoredBatch>, digest: HashValue) -> bool {
    exists|i: int| 0 <= i < batches.len() && batches[i].digest == digest
}

/// The latest time at which a batch that comes to the store `v` may expire:
/// the largest gap after the last committed round, in the store's epoch.
pub open spec fn expiry_limit(v: BatchStoreView) -> (int, int) {
    (
        v.epoch as int,
        if v.last_committed_round + v.max_expiry_gap <= u64::MAX {
            v.last_committed_round + v.max_expiry_gap
        } else {
            u64::MAX as int
        },
    )
}

/// What becomes of the request `r` at the store `v`.
pub open spec fn persist_outcome(v: BatchStoreView, r: PersistRequestView) -> PersistOutcome {
    if holds(v.batches, r.digest) {
        PersistOutcome::AlreadyStored
    } else if time_lt(expiry_limit(v), r.expiration) {
        PersistOutcome::ExpirationTooFar
    } else if r.num_bytes > v.db_balance {
        PersistOutcome::QuotaExceeded
    } else if r.num_bytes > v.memory_balance {
        PersistOutcome::StoredOnDisk
    } else {
        PersistOutcome::StoredInMemory
    }
}

/// The store `v` after the request `r`.
pub open spec fn persisted(v: BatchStoreView, r: PersistRequestView) -> BatchStoreView {
    match persist_outcome(v, r) {
        PersistOutcome::AlreadyStored
        | PersistOutcome::QuotaExceeded
        | PersistOutcome::ExpirationTooFar => v,
        outcome => BatchStoreView {
            batches: v.batches.push(
                StoredBatch {
                    digest: r.digest,
                    author: r.author,
                    payload: r.payload,
                    num_bytes: r.num_bytes,
                    expiration: r.expiration,
                    in_memory: outcome == PersistOutcome::StoredInMemory,
                },
            ),
            memory_balance: if outcome == PersistOutcome::StoredInMemory {
                (v.memory_balance - r.num_bytes) as nat
            } else {
                v.memory_balance
            },
            db_balance: (v.db_balance - r.num_bytes) as nat,
            ..v
        },
    }
}

/// The time before which a batch must have expired to be dropped once
/// `committed_round` of `epoch` is committed: the grace period before it.
pub open spec fn drop_horizon(epoch: u64, committed_round: Round, grace_rounds: Round) -> (
    int,
    int,
) {
    (
        epoch as int,
        if committed_round >= grace_rounds {
            committed_round - grace_rounds
        } else {
            0
        },
    )
}

/// Whether a batch that expires at `expiration` is dropped at `horizon`.
pub open spec fn is_stale(expiration: (int, int), horizon: (int, int)) -> bool {
    time_lt(expiration, horizon)
}

/// The batches of `batches` that are kept at `horizon`, in their order.
pub open spec fn kept(batches: Seq<StoredBatch>, horizon: (int, int)) -> Seq<StoredBatch>
    decreases batches.len(),
{
    if batches.len() == 0 {
        Seq::empty()
    } else if is_stale(batches.last().expiration, horizon) {
        kept(batches.drop_last(), horizon)
    } else {
        kept(batches.drop_last(), horizon).push(batches.last())
    }
}

/// The digests of the batches of `batches` that are dropped at `horizon`, in
/// their order.
pub open spec fn dropped(batches: Seq<StoredBatch>, horizon: (int, int)) -> Seq<HashValue>
    decreases batches.len(),
{
    if batches.len() == 0 {
        Seq::empty()
    } else if is_stale(batches.last().expiration, horizon) {
        dropped(batches.drop_last(), horizon).push(batches.last().digest)
    } else {
        dropped(batches.drop_last(), horizon)
    }
}

/// The bytes of disk that `batches` take.
pub open spec fn disk_bytes(batches: Seq<StoredBatch>) -> nat
    decreases batches.len(),
{
    if batches.len() == 0 {
        0
    } else {
        disk_bytes(batches.drop_last()) + batches.last().num_bytes
    }
}

/// The bytes of memory that `batches` take.
pub open spec fn memory_bytes(batches: Seq<StoredBatch>) -> nat
    decreases batches.len(),
{
    if batches.len() == 0 {
        0
    } else {
        memory_bytes(batches.drop_last()) + (if batches.last().in_memory {
            batches.last().num_bytes
        } else {
            0
        })
    }
}

#[derive(Debug)]
struct Entry {
    digest: HashValue,
    author: PeerId,
    payload: Vec<SerializedTransaction>,
    num_bytes: usize,
    expiration: LogicalTime,
    in_memory: bool,
}

impl View for Entry {
    type V = StoredBatch;

    closed spec fn view(&self) -> StoredBatch {
        StoredBatch {
            digest: self.digest,
            author: self.author,
            payload: payload_view(self.payload@),
            num_bytes: self.num_bytes as nat,
            expiration: self.expiration@,
            in_memory: self.in_memory,
        }
    }
}

/// The store of the batches of one epoch.
#[derive(Debug)]
pub struct BatchStore {
    epoch: u64,
    last_committed_round: Round,
    entries: Vec<Entry>,
    memory_quota: usize,
    db_quota: usize,
    memory_balance: usize,
    db_balance: usize,
    grace_rounds: Round,
    max_expiry_gap: Round,
}

impl View for BatchStore {
    type V = BatchStoreView;

    closed spec fn view(&self) -> BatchStoreView {
        BatchStoreView {
            epoch: self.epoch,
            last_committed_round: self.last_committed_round,
            batches: self.entries@.map_values(|e: Entry| e@),
            memory_balance: self.memory_balance as nat,
            db_balance: self.db_balance as nat,
            grace_rounds: self.grace_rounds,
            max_expiry_gap: self.max_expiry_gap,
        }
    }
}

impl BatchStore {
    /// The budget of memory, in bytes.
    pub closed spec fn memory_quota(&self) -> nat {
        self.memory_quota as nat
    }

    /// The budget of disk, in bytes.
    pub closed spec fn db_quota(&self) -> nat {
        self.db_quota as nat
    }

    /// What holds of every batch store: no digest is stored twice, and what
    /// is free of each budget is the budget less what the batches take.
    pub closed spec fn wf(&self) -> bool {
        &&& forall|i: int, j: int|
            0 <= i < j < self@.batches.len() ==> self@.batches[i].digest != self@.batches[j].digest
        &&& self.db_balance + disk_bytes(self@.batches) == self.db_quota
        &&& self.memory_balance + memory_bytes(self@.batches) == self.memory_quota
    }

    /// An empty store for the batches of `epoch`.
    pub fn new(
        epoch: u64,
        last_committed_round: Round,
        memory_quota: usize,
        db_quota: usize,
        grace_rounds: Round,
        max_expiry_gap: Round,
    ) -> (s: Self)
        ensures
            s.wf(),
            s.memory_quota() == memory_quota,
            s.db_quota() == db_quota,
            s@ == (BatchStoreView {
                epoch,
                last_committed_round,
                batches: Seq::empty(),
                memory_balance: memory_quota as nat,
                db_balance: db_quota as nat,
                grace_rounds,
                max_expiry_gap,
            }),
    {
        let s = BatchStore {
            epoch,
            last_committed_round,
            entries: Vec::new(),
            memory_quota,
            db_quota,
            memory_balance: memory_quota,
            db_balance: db_quota,
            grace_rounds,
            max_expiry_gap,
        };
        assert(s@.batches =~= Seq::empty());
        s
    }

    fn find(&self, digest: &HashValue) -> (r: Option<usize>)
        ensures
            match r {
                Some(i) => i < self@.batches.len() && self@.batches[i as int].digest == *digest,
                None => !holds(self@.batches, *digest),
            },
    {
        let mut i: usize = 0;
        while i < self.entries.len()
            invariant
                i <= self.entries.len(),
                forall|j: int| 0 <= j < i ==> self.entries@[j].digest != *digest,
            decreases self.entries.len() - i,
        {
            if self.entries[i].digest == *digest {
                assert(self@.batches[i as int] == self.entries@[i as int]@);
                return Some(i);
            }
            i += 1;
        }
        proof {
            assert forall|k: int| 0 <= k < self@.batches.len() implies self@.batches[k].digest
                != *digest by {
                assert(self@.batches[k] == self.entries@[k]@);
            }
        }
        None
    }

    /// Whether a batch with `digest` is stored.
    pub fn contains(&self, digest: &HashValue) -> (b: bool)
        ensures
            b == holds(self@.batches, *digest),
    {
        self.find(digest).is_some()
    }

    /// The payload of the batch with `digest`, if it is stored and held in
    /// memory.
    pub fn get_payload(&self, digest: &HashValue) -> (r: Option<&Vec<SerializedTransaction>>)
        ensures
            match r {
                Some(payload) => exists|i: int|
                    0 <= i < self@.batches.len() && self@.batches[i].digest == *digest
                        && self@.batches[i].in_memory && self@.batches[i].payload == payload_view(
                        payload@,
                    ),
                None => forall|i: int|
                    0 <= i < self@.batches.len() && self@.batches[i].digest == *digest
                        ==> !self@.batches[i].in_memory,
            },
    {
        let mut i: usize = 0;
        while i < self.entries.len()
            invariant
                i <= self.entries.len(),
                forall|j: int|
                    0 <= j < i && self.entries@[j].digest == *digest ==> !self.entries@[j].in_memory,
            decreases self.entries.len() - i,
        {
            if self.entries[i].digest == *digest && self.entries[i].in_memory {
                assert(self@.batches[i as int] == self.entries@[i as int]@);
                return Some(&self.entries[i].payload);
            }
            i += 1;
        }
        proof {
            assert forall|k: int|
                0 <= k < self@.batches.len() && self@.batches[k].digest
                    == *digest implies !self@.batches[k].in_memory by {
                assert(self@.batches[k] == self.entries@[k]@);
            }
        }
        None
    }

    /// Stores a batch. A batch whose digest is stored already is left alone,
    /// so that storing it again changes nothing. A batch that expires later
    /// than the largest gap after the last committed round, or that the disk
    /// budget does not allow for, is not stored. Any other batch is stored;
    /// it is held in memory too if the memory budget allows for it.
    pub fn persist(&mut self, request: PersistRequest) -> (outcome: PersistOutcome)
        requires
            old(self).wf(),
        ensures
            final(self).wf(),
            final(self).memory_quota() == old(self).memory_quota(),
            final(self).db_quota() == old(self).db_quota(),
            outcome == persist_outcome(old(self)@, request_view(request)),
            final(self)@ == persisted(old(self)@, request_view(request)),
    {
        if self.find(&request.digest).is_some() {
            return PersistOutcome::AlreadyStored;
        }
        let limit = LogicalTime::new(
            self.epoch,
            self.last_committed_round.saturating_add(self.max_expiry_gap),
        );
        if limit.is_before(&request.expiration) {
            return PersistOutcome::ExpirationTooFar;
        }
        let num_bytes = request.num_bytes;
        if num_bytes > self.db_balance {
            return PersistOutcome::QuotaExceeded;
        }
        let in_memory = num_bytes <= self.memory_balance;
        let ghost before = self@.batches;
        let entry = Entry {
            digest: request.digest,
            author: request.author,
            payload: request.payload,
            num_bytes,
            expiration: request.expiration,
            in_memory,
        };
        let ghost stored = entry@;
        self.entries.push(entry);
        self.db_balance = self.db_balance - num_bytes;
        if in_memory {
            self.memory_balance = self.memory_balance - num_bytes;
        }
        proof {
            assert(self@.batches =~= before.push(stored));
            assert(self@.batches.drop_last() =~= before);
            assert forall|i: int, j: int| 0 <= i < j < self@.batches.len() implies self@.batches[i].digest
                != self@.batches[j].digest by {
                if j == before.len() {
                    assert(before[i].digest != request.digest);
                }
            }
        }
        if in_memory {
            PersistOutcome::StoredInMemory
        } else {
            PersistOutcome::StoredOnDisk
        }
    }

    /// Drops the batches that expired more than the grace period before
    /// `committed_round`, gives their share of the budgets back, and says
    /// which digests went, for them to be deleted from disk.
    pub fn update_committed_round(&mut self, committed_round: Round) -> (gone: Vec<HashValue>)
        requires
            old(self).wf(),
        ensures
            final(self).wf(),
            final(self).memory_quota() == old(self).memory_quota(),
            final(self).db_quota() == old(self).db_quota(),
            final(self)@.batches == kept(
                old(self)@.batches,
                drop_horizon(old(self)@.epoch, committed_round, old(self)@.grace_rounds),
            ),
            gone@ == dropped(
                old(self)@.batches,
                drop_horizon(old(self)@.epoch, committed_round, old(self)@.grace_rounds),
            ),
            final(self)@.epoch == old(self)@.epoch,
            final(self)@.grace_rounds == old(self)@.grace_rounds,
            final(self)@.max_expiry_gap == old(self)@.max_expiry_gap,
            final(self)@.last_committed_round == committed_round,
    {
        let horizon = LogicalTime::new(
            self.epoch,
            if committed_round >= self.grace_rounds {
                committed_round - self.grace_rounds
            } else {
                0
            },
        );
        let ghost h = drop_horizon(self.epoch, committed_round, self.grace_rounds);
        let ghost all = self@.batches;
        self.last_committed_round = committed_round;
        let mut gone: Vec<HashValue> = Vec::new();
        let mut i: usize = 0;
        let ghost mut seen: int = 0;
        proof {
            assert(all.subrange(0, all.len() as int) =~= all);
            assert(self@.batches =~= kept(all.subrange(0, 0), h) + all.subrange(0, all.len() as int));
        }
        while i < self.entries.len()
            invariant
                self.wf(),
                self.memory_quota == old(self).memory_quota,
                self.db_quota == old(self).db_quota,
                self.epoch == old(self).epoch,
                self.grace_rounds == old(self).grace_rounds,
                self.max_expiry_gap == old(self).max_expiry_gap,
                self.last_committed_round == committed_round,
                h == horizon@,
                0 <= seen <= all.len(),
                i == kept(all.subrange(0, seen), h).len(),
                self@.batches == kept(all.subrange(0, seen), h) + all.subrange(
                    seen,
                    all.len() as int,
                ),
                gone@ == dropped(all.subrange(0, seen), h),
            decreases all.len() - seen,
        {
            let ghost current = self@.batches;
            proof {
                assert(current[i as int] == self.entries@[i as int]@);
                assert(current[i as int] == all[seen]);
                assert(all.subrange(0, seen + 1).drop_last() =~= all.subrange(0, seen));
                assert(all.subrange(0, seen + 1).last() == all[seen]);
            }
            if self.entries[i].expiration.is_before(&horizon) {
                proof {
                    lemma_bytes_without(current, i as int);
                }
                let e = self.entries.remove(i);
                self.db_balance = self.db_balance + e.num_bytes;
                if e.in_memory {
                    self.memory_balance = self.memory_balance + e.num_bytes;
                }
                gone.push(e.digest);
                proof {
                    assert(self@.batches =~= current.remove(i as int));
                    assert(current.remove(i as int) =~= kept(all.subrange(0, seen + 1), h)
                        + all.subrange(seen + 1, all.len() as int));
                }
            } else {
                proof {
                    assert(current =~= kept(all.subrange(0, seen + 1), h) + all.subrange(
                        seen + 1,
                        all.len() as int,
                    ));
                }
                i += 1;
            }
            proof {
                seen = seen + 1;
            }
        }
        proof {
            assert(seen == all.len()) by {
                if seen < all.len() {
                    assert(self@.batches.len() == i + all.len() - seen);
                }
            }
            assert(all.subrange(0, all.len() as int) =~= all);
            assert(self@.batches =~= kept(all, h));
        }
        gone
    }
}

/// Without the batch at position `i`, `batches` take as much less of each
/// budget as that batch takes, and hold no digest twice if they held none
/// twice before.
proof fn lemma_bytes_without(batches: Seq<StoredBatch>, i: int)
    requires
        0 <= i < batches.len(),
    ensures
        disk_bytes(batches) == disk_bytes(batches.remove(i)) + batches[i].num_bytes,
        memory_bytes(batches) == memory_bytes(batches.remove(i)) + (if batches[i].in_memory {
            batches[i].num_bytes
        } else {
            0
        }),
    decreases batches.len(),
{
    if i == batches.len() - 1 {
        assert(batches.remove(i) =~= batches.drop_last());
    } else {
        lemma_bytes_without(batches.drop_last(), i);
        assert(batches.remove(i).drop_last() =~= batches.drop_last().remove(i));
        assert(batches.remove(i).last() == batches.last());
    }
}

/// Every batch that is kept was stored, and the batches kept hold no digest
/// twice if the batches stored held none twice.
pub proof fn lemma_kept_is_distinct(batches: Seq<StoredBatch>, horizon: (int, int))
    requires
        forall|i: int, j: int| 0 <= i < j < batches.len() ==> batches[i].digest != batches[j].digest,
    ensures
        forall|i: int, j: int|
            0 <= i < j < kept(batches, horizon).len() ==> kept(batches, horizon)[i].digest != kept(
                batches,
                horizon,
            )[j].digest,
        forall|i: int|
            0 <= i < kept(batches, horizon).len() ==> batches.contains(
                #[trigger] kept(batches, horizon)[i],
            ) && !is_stale(kept(batches, horizon)[i].expiration, horizon),
    decreases batches.len(),
{
    if batches.len() > 0 {
        let init = batches.drop_last();
        lemma_kept_is_distinct(init, horizon);
        let k = kept(batches, horizon);
        let ki = kept(init, horizon);
        assert forall|i: int| 0 <= i < k.len() implies batches.contains(#[trigger] k[i])
            && !is_stale(k[i].expiration, horizon) by {
            if i < ki.len() {
                assert(k[i] == ki[i]);
                assert(init.contains(ki[i]));
                let w = choose|w: int| 0 <= w < init.len() && init[w] == ki[i];
                assert(batches[w] == ki[i]);
            } else {
                assert(k[i] == batches.last());
                assert(batches[batches.len() - 1] == k[i]);
            }
        }
        assert forall|i: int, j: int| 0 <= i < j < k.len() implies k[i].digest != k[j].digest by {
            if j < ki.len() {
                assert(k[i] == ki[i] && k[j] == ki[j]);
            } else {
                assert(k[j] == batches.last());
                assert(k[i] == ki[i]);
                assert(init.contains(ki[i]));
                let w = choose|w: int| 0 <= w < init.len() && init[w] == ki[i];
                assert(batches[w].digest != batches[batches.len() - 1].digest);
            }
        }
    }
}

/// Storing a batch twice is storing it once: the second request changes
/// nothing, and the store holds the digest a single time.
pub proof fn lemma_persist_is_idempotent(v: BatchStoreView, r: PersistRequestView)
    ensures
        persisted(persisted(v, r), r) == persisted(v, r),
        persist_outcome(v, r) != PersistOutcome::QuotaExceeded && persist_outcome(v, r)
            != PersistOutcome::ExpirationTooFar ==> persist_outcome(persisted(v, r), r)
            == PersistOutcome::AlreadyStored,
{
    let once = persisted(v, r);
    match persist_outcome(v, r) {
        PersistOutcome::AlreadyStored => {},
        PersistOutcome::QuotaExceeded => {},
        PersistOutcome::ExpirationTooFar => {},
        _ => {
            assert(once.batches[once.batches.len() - 1].digest == r.digest);
            assert(holds(once.batches, r.digest));
        },
    }
}

} // verus!
