//! The rules of the batching loop: when a new batch may be started, under
//! which number, and when it expires.

use crate::logical_time::{time_lt, LogicalTime, Round};
use crate::quorum_store::proof_builder::ProofOfStore;
use crate::quorum_store::types::{BatchId, HashValue};
use vstd::prelude::*;

verus! {

/// A proof that waits to be committed.
#[derive(Clone, Copy, Debug)]
pub struct PendingProof {
    pub digest: HashValue,
    pub expiration: LogicalTime,
}

/// What the batching loop does when its timer fires.
#[derive(Clone, Copy, Debug, PartialEq, Eq, Structural)]
pub enum PullDecision {
    /// Pull from the mempool and start a batch under this number, to expire
    /// at this time.
    Start { batch_id: BatchId, expiration: LogicalTime },
    /// Do not pull now.
    Defer,
}

/// What the batching loop knows, as plain values.
pub struct WrapperView {
    pub epoch: u64,
    /// The number of the next batch.
    pub next_batch_id: BatchId,
    /// The last round that is known to be committed.
    pub committed_round: Round,
    /// A new batch expires this many rounds after the last committed round.
    pub expiry_gap: Round,
    /// Pulling pauses while more proofs than this are pending.
    pub back_pressure_limit: usize,
    /// The proofs that are neither committed nor expired, in the order in
    /// which they came.
    pub pending: Seq<PendingProof>,
}

/// Whether the batching loop `v` holds back: more proofs are pending than
/// the limit allows.
pub open spec fn back_pressure(v: WrapperView) -> bool {
    v.pending.len() > v.back_pressure_limit
}

/// The time at which a batch that the loop `v` starts now expires.
pub open spec fn batch_expiration(v: WrapperView) -> (int, int) {
    (
        v.epoch as int,
        if v.committed_round + v.expiry_gap <= u64::MAX {
            v.committed_round + v.expiry_gap
        } else {
            u64::MAX as int
        },
    )
}

/// Whether a pending proof stays pending once the batches of `committed` are
/// committed and the time is `now`: its batch is not among them, and it has
/// not expired.
pub open spec fn stays_pending(p: PendingProof, committed: Seq<HashValue>, now: (int, int)) -> bool {
    !committed.contains(p.digest) && !time_lt(p.expiration@, now)
}

/// Those of `pending` that stay pending, in their order.
pub open spec fn still_pending(
    pending: Seq<PendingProof>,
    committed: Seq<HashValue>,
    now: (int, int),
) -> Seq<PendingProof>
    decreases pending.len(),
{
    if pending.len() == 0 {
        Seq::empty()
    } else if stays_pending(pending.last(), committed, now) {
        still_pending(pending.drop_last(), committed, now).push(pending.last())
    } else {
        still_pending(pending.drop_last(), committed, now)
    }
}

/// The batching loop of one validator in one epoch.
#[derive(Debug)]
pub struct QuorumStoreWrapper {
    epoch: u64,
    batch_id: BatchId,
    committed_round: Round,
    batch_expiry_round_gap_when_init: Round,
    back_pressure_limit: usize,
    pending: Vec<PendingProof>,
}

impl View for QuorumStoreWrapper {
    type V = WrapperView;

    closed spec fn view(&self) -> WrapperView {
        WrapperView {
            epoch: self.epoch,
            next_batch_id: self.batch_id,
            committed_round: self.committed_round,
            expiry_gap: self.batch_expiry_round_gap_when_init,
            back_pressure_limit: self.back_pressure_limit,
            pending: self.pending@,
        }
    }
}

impl QuorumStoreWrapper {
    /// A loop for `epoch` that starts with batch 0 and without pending proofs.
    pub fn new(
        epoch: u64,
        committed_round: Round,
        batch_expiry_round_gap_when_init: Round,
        back_pressure_limit: usize,
    ) -> (w: Self)
        ensures
            w@ == (WrapperView {
                epoch,
                next_batch_id: 0,
                committed_round,
                expiry_gap: batch_expiry_round_gap_when_init,
                back_pressure_limit,
                pending: Seq::empty(),
            }),
    {
        QuorumStoreWrapper {
            epoch,
            batch_id: 0,
            committed_round,
            batch_expiry_round_gap_when_init,
            back_pressure_limit,
            pending: Vec::new(),
        }
    }

    /// Whether pulling is held back.
    pub fn back_pressure(&self) -> (b: bool)
        ensures
            b == back_pressure(self@),
    {
        self.pending.len() > self.back_pressure_limit
    }

    /// Decides, when the pull timer fires, whether to pull and start a batch.
    /// Under back pressure nothing is pulled. Otherwise the batch gets the
    /// next number, which no batch of this loop had before, and expires the
    /// configured number of rounds after the last committed round. When the
    /// numbers are used up nothing is pulled any more.
    pub fn start_batch(&mut self) -> (d: PullDecision)
        ensures
            if back_pressure(old(self)@) || old(self)@.next_batch_id == u64::MAX {
                d == PullDecision::Defer && final(self)@ == old(self)@
            } else {
                &&& d matches PullDecision::Start { batch_id, expiration }
                &&& batch_id == old(self)@.next_batch_id
                &&& expiration@ == batch_expiration(old(self)@)
                &&& final(self)@ == (WrapperView {
                    next_batch_id: (batch_id + 1) as u64,
                    ..old(self)@
                })
            },
    {
        if self.back_pressure() || self.batch_id == u64::MAX {
            return PullDecision::Defer;
        }
        let batch_id = self.batch_id;
        let expiration = LogicalTime::new(
            self.epoch,
            self.committed_round.saturating_add(self.batch_expiry_round_gap_when_init),
        );
        self.batch_id = batch_id + 1;
        PullDecision::Start { batch_id, expiration }
    }

    /// Takes note of a proof that has come for one of the loop's batches: it
    /// is pending from now on.
    pub fn insert_proof(&mut self, proof_of_store: &ProofOfStore)
        ensures
            final(self)@ == (WrapperView {
                pending: old(self)@.pending.push(
                    PendingProof {
                        digest: proof_of_store.info.digest,
                        expiration: proof_of_store.info.expiration,
                    },
                ),
                ..old(self)@
            }),
    {
        self.pending.push(
            PendingProof {
                digest: proof_of_store.info.digest,
                expiration: proof_of_store.info.expiration,
            },
        );
    }

    /// Takes note of a commit at `round` of this epoch with the batches of
    /// `committed`: their proofs are pending no longer, nor are those that
    /// expired before that round.
    pub fn notify_commit(&mut self, round: Round, committed: &Vec<HashValue>)
        ensures
            final(self)@ == (WrapperView {
                committed_round: round,
                pending: still_pending(
                    old(self)@.pending,
                    committed@,
                    (old(self)@.epoch as int, round as int),
                ),
                ..old(self)@
            }),
    {
        let now = LogicalTime::new(self.epoch, round);
        let mut kept: Vec<PendingProof> = Vec::new();
        let mut i: usize = 0;
        while i < self.pending.len()
            invariant
                *self == *old(self),
                now@ == (self.epoch as int, round as int),
                i <= self.pending.len(),
                kept@ == still_pending(self.pending@.subrange(0, i as int), committed@, now@),
            decreases self.pending.len() - i,
        {
            let p = self.pending[i];
            let mut among = false;
            let mut k: usize = 0;
            while k < committed.len()
                invariant
                    k <= committed.len(),
                    among == exists|j: int| 0 <= j < k && committed@[j] == p.digest,
                decreases committed.len() - k,
            {
                if committed[k] == p.digest {
                    among = true;
                }
                k += 1;
            }
            proof {
                assert(self.pending@.subrange(0, i + 1).drop_last() =~= self.pending@.subrange(
                    0,
                    i as int,
                ));
                assert(self.pending@.subrange(0, i + 1).last() == p);
                assert(among == committed@.contains(p.digest));
            }
            if !among && !p.expiration.is_before(&now) {
                kept.push(p);
            }
            i += 1;
        }
        assert(self.pending@.subrange(0, self.pending.len() as int) =~= self.pending@);
        self.pending = kept;
        self.committed_round = round;
    }
}

} // verus!
