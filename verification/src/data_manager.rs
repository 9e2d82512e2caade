//! From the payload of a block to the transactions to execute.

use crate::logical_time::{time_lt, LogicalTime};
use crate::quorum_store::proof_builder::ProofOfStore;
use crate::quorum_store::types::{payload_view, HashValue, SerializedTransaction};
use vstd::prelude::*;

verus! {

/// What a block carries: transactions themselves, or proofs that batches of
/// transactions are stored.
#[derive(Debug)]
pub enum Payload {
    DirectMempool(Vec<SerializedTransaction>),
    InQuorumStore(Vec<ProofOfStore>),
    Empty,
}

/// Why the transactions of a payload could not be put together.
#[derive(Clone, Copy, Debug, PartialEq, Eq, Structural)]
pub enum DataError {
    /// The payload refers to a batch that has expired at the block's time.
    ExpiredProof,
    /// There is not one batch for each proof of the payload.
    BatchCountMismatch,
}

/// The digests of the batches that `proofs` refer to, in order.
pub open spec fn digests_of(proofs: Seq<ProofOfStore>) -> Seq<HashValue> {
    proofs.map_values(|p: ProofOfStore| p.info.digest)
}

/// The transactions of `batches`, one batch after the other.
pub open spec fn joined(batches: Seq<Seq<Seq<u8>>>) -> Seq<Seq<u8>>
    decreases batches.len(),
{
    if batches.len() == 0 {
        Seq::empty()
    } else {
        joined(batches.drop_last()) + batches.last()
    }
}

/// The batches of `batches` as byte strings.
pub open spec fn batches_view(batches: Seq<Vec<SerializedTransaction>>) -> Seq<Seq<Seq<u8>>> {
    batches.map_values(|b: Vec<SerializedTransaction>| payload_view(b@))
}

/// Whether no batch that `proofs` refer to has expired at `time`: each
/// expires at `time` or later.
pub open spec fn live_at(proofs: Seq<ProofOfStore>, time: (int, int)) -> bool {
    forall|i: int| 0 <= i < proofs.len() ==> !time_lt((#[trigger] proofs[i]).info.expiration@, time)
}

impl Payload {
    /// The digests of the batches to look up for this payload, in the order
    /// of the payload; none where the payload carries its transactions.
    pub fn digests(&self) -> (r: Vec<HashValue>)
        ensures
            r@ == (match *self {
                Payload::InQuorumStore(proofs) => digests_of(proofs@),
                _ => Seq::empty(),
            }),
    {
        let mut out: Vec<HashValue> = Vec::new();
        match self {
            Payload::InQuorumStore(proofs) => {
                let mut i: usize = 0;
                while i < proofs.len()
                    invariant
                        i <= proofs.len(),
                        out@ == digests_of(proofs@.subrange(0, i as int)),
                    decreases proofs.len() - i,
                {
                    out.push(proofs[i].info.digest);
                    assert(out@ =~= digests_of(proofs@.subrange(0, i + 1)));
                    i += 1;
                }
                assert(proofs@.subrange(0, proofs.len() as int) =~= proofs@);
            },
            _ => {},
        }
        out
    }

    /// Whether a block at `time` may carry this payload: every batch that it
    /// refers to must expire at `time` or later.
    pub fn is_live_at(&self, time: &LogicalTime) -> (b: bool)
        ensures
            b == (match *self {
                Payload::InQuorumStore(proofs) => live_at(proofs@, time@),
                _ => true,
            }),
    {
        match self {
            Payload::InQuorumStore(proofs) => {
                let mut i: usize = 0;
                while i < proofs.len()
                    invariant
                        *self matches Payload::InQuorumStore(p) && p == *proofs,
                        i <= proofs.len(),
                        forall|j: int|
                            0 <= j < i ==> !time_lt(
                                (#[trigger] proofs@[j]).info.expiration@,
                                time@,
                            ),
                    decreases proofs.len() - i,
                {
                    if proofs[i].info.expiration.is_before(time) {
                        assert(time_lt(proofs@[i as int].info.expiration@, time@));
                        return false;
                    }
                    i += 1;
                }
                true
            },
            _ => true,
        }
    }

    /// The transactions of this payload for a block at `time`: its own where
    /// it carries them, else those of `batches`, which are the batches of its
    /// proofs, in the order of the payload. A payload that refers to a batch
    /// that has expired at `time` is turned down, so that no such block is
    /// executed or committed.
    pub fn get_data(self, time: &LogicalTime, batches: Vec<Vec<SerializedTransaction>>) -> (r:
        Result<Vec<SerializedTransaction>, DataError>)
        ensures
            match self {
                Payload::DirectMempool(txns) => r == Ok::<Vec<SerializedTransaction>, DataError>(
                    txns,
                ),
                Payload::Empty => r matches Ok(txns) && txns@.len() == 0,
                Payload::InQuorumStore(proofs) => if !live_at(proofs@, time@) {
                    r == Err::<Vec<SerializedTransaction>, DataError>(DataError::ExpiredProof)
                } else if proofs@.len() != batches@.len() {
                    r == Err::<Vec<SerializedTransaction>, DataError>(
                        DataError::BatchCountMismatch,
                    )
                } else {
                    r matches Ok(txns) && payload_view(txns@) == joined(batches_view(batches@))
                },
            },
    {
        if !self.is_live_at(time) {
            return Err(DataError::ExpiredProof);
        }
        match self {
            Payload::DirectMempool(txns) => Ok(txns),
            Payload::Empty => Ok(Vec::new()),
            Payload::InQuorumStore(proofs) => {
                if proofs.len() != batches.len() {
                    return Err(DataError::BatchCountMismatch);
                }
                let ghost all = batches_view(batches@);
                let mut batches = batches;
                let mut reversed: Vec<Vec<SerializedTransaction>> = Vec::new();
                while batches.len() > 0
                    invariant
                        batches@.len() + reversed@.len() == all.len(),
                        forall|k: int|
                            0 <= k < batches@.len() ==> payload_view((#[trigger] batches@[k])@)
                                == all[k],
                        forall|k: int|
                            0 <= k < reversed@.len() ==> payload_view((#[trigger] reversed@[k])@)
                                == all[all.len() - 1 - k],
                    decreases batches@.len(),
                {
                    let batch = batches.pop().unwrap();
                    reversed.push(batch);
                }
                let mut out: Vec<SerializedTransaction> = Vec::new();
                let ghost mut done: int = 0;
                assert(payload_view(out@) =~= joined(all.subrange(0, 0)));
                while reversed.len() > 0
                    invariant
                        0 <= done,
                        done + reversed@.len() == all.len(),
                        forall|k: int|
                            0 <= k < reversed@.len() ==> payload_view((#[trigger] reversed@[k])@)
                                == all[all.len() - 1 - k],
                        payload_view(out@) == joined(all.subrange(0, done)),
                    decreases reversed@.len(),
                {
                    let mut batch = reversed.pop().unwrap();
                    proof {
                        assert(payload_view(batch@) == all[done]);
                        assert(all.subrange(0, done + 1).drop_last() =~= all.subrange(0, done));
                        assert(payload_view(out@ + batch@) =~= payload_view(out@) + payload_view(
                            batch@,
                        ));
                        done = done + 1;
                    }
                    out.append(&mut batch);
                }
                assert(all.subrange(0, all.len() as int) =~= all);
                Ok(out)
            },
        }
    }
}

} // verus!
