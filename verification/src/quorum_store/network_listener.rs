//! Takes the quorum-store messages of other validators: whole batches,
//! signed digests, and fragments, which it assembles per author.

use crate::account_address::PeerId;
use crate::logical_time::LogicalTime;
use crate::quorum_store::batch_aggregator::{
    appended, digest_input, end_rejection, idle, rejection, BatchAggregator,
    BatchAggregatorError, BatchAggregatorView,
};
use crate::quorum_store::proof_builder::SignedDigest;
use crate::quorum_store::types::{
    concat_bytes, payload_view, total_bytes, Fragment, HashValue, PersistRequest,
    SerializedTransaction,
};
use vstd::prelude::*;

verus! {

/// A whole batch as it came over the network.
#[derive(Debug)]
pub struct Batch {
    pub epoch: u64,
    pub source: PeerId,
    pub expiration: LogicalTime,
    pub payload: Vec<SerializedTransaction>,
}

/// A batch of another validator that is complete and within the byte budget,
/// and that has not been hashed yet.
#[derive(Debug)]
pub struct ReceivedBatch {
    pub author: PeerId,
    pub payload: Vec<SerializedTransaction>,
    pub num_bytes: usize,
    pub expiration: LogicalTime,
}

impl ReceivedBatch {
    /// The bytes to hash for the batch's digest: those of its transactions in
    /// order.
    pub fn digest_input(&self) -> (bytes: Vec<u8>)
        ensures
            bytes@ == concat_bytes(payload_view(self.payload@)),
    {
        digest_input(&self.payload)
    }

    /// Given the batch's digest, the request to store the batch.
    pub fn persist_request(self, digest: HashValue) -> (r: PersistRequest)
        ensures
            r == (PersistRequest {
                author: self.author,
                payload: self.payload,
                digest,
                num_bytes: self.num_bytes,
                expiration: self.expiration,
            }),
    {
        PersistRequest::new(self.author, self.payload, digest, self.num_bytes, self.expiration)
    }
}

/// What a listener does about a message.
#[derive(Debug)]
pub enum ListenerStep {
    /// Hash this batch and ask the batch store to store it.
    Persist(ReceivedBatch),
    /// Hand this signed digest to the proof builder.
    ForwardToProofBuilder(SignedDigest),
    /// The fragment was taken; its batch is not complete yet.
    Aggregated,
}

/// Why a whole batch of `payload` is not taken under a budget of
/// `max_batch_bytes` bytes, or `None` if it is: a batch must hold a
/// transaction, and no more bytes than the budget.
pub open spec fn batch_rejection(payload: Seq<Seq<u8>>, max_batch_bytes: nat) -> Option<
    BatchAggregatorError,
> {
    end_rejection(idle(max_batch_bytes), 0, 0, payload)
}

struct RemoteBatch {
    author: PeerId,
    aggregator: BatchAggregator,
}

/// The batch that `author` has in progress among `batches`, one per author;
/// the batch `fresh` if it has none.
pub open spec fn batch_of_author(
    batches: Seq<(PeerId, BatchAggregatorView)>,
    author: PeerId,
    fresh: BatchAggregatorView,
) -> BatchAggregatorView {
    if exists|i: int| 0 <= i < batches.len() && batches[i].0 == author {
        batches[choose|i: int| 0 <= i < batches.len() && batches[i].0 == author].1
    } else {
        fresh
    }
}

/// Whether no author has two batches in `batches`.
pub open spec fn one_batch_per_author(batches: Seq<(PeerId, BatchAggregatorView)>) -> bool {
    forall|i: int, j: int| 0 <= i < j < batches.len() ==> batches[i].0 != batches[j].0
}

proof fn lemma_batch_at(batches: Seq<(PeerId, BatchAggregatorView)>, i: int, fresh: BatchAggregatorView)
    requires
        one_batch_per_author(batches),
        0 <= i < batches.len(),
    ensures
        batch_of_author(batches, batches[i].0, fresh) == batches[i].1,
{
    let k = choose|k: int| 0 <= k < batches.len() && batches[k].0 == batches[i].0;
    assert(k == i);
}

proof fn lemma_batch_updated(
    batches: Seq<(PeerId, BatchAggregatorView)>,
    i: int,
    v: BatchAggregatorView,
    fresh: BatchAggregatorView,
)
    requires
        one_batch_per_author(batches),
        0 <= i < batches.len(),
    ensures
        one_batch_per_author(batches.update(i, (batches[i].0, v))),
        forall|author: PeerId| #[trigger]
            batch_of_author(batches.update(i, (batches[i].0, v)), author, fresh) == (if author
                == batches[i].0 {
                v
            } else {
                batch_of_author(batches, author, fresh)
            }),
{
    let updated = batches.update(i, (batches[i].0, v));
    assert forall|author: PeerId| #[trigger]
        batch_of_author(updated, author, fresh) == (if author == batches[i].0 {
            v
        } else {
            batch_of_author(batches, author, fresh)
        }) by {
        if exists|k: int| 0 <= k < batches.len() && batches[k].0 == author {
            let a = choose|k: int| 0 <= k < batches.len() && batches[k].0 == author;
            assert(updated[a].0 == author);
            let b = choose|k: int| 0 <= k < updated.len() && updated[k].0 == author;
            assert(batches[b].0 == author);
            assert(a == b);
        } else {
            assert forall|k: int| 0 <= k < updated.len() implies updated[k].0 != author by {
                assert(batches[k].0 == updated[k].0);
            }
        }
    }
}

proof fn lemma_batch_added(
    batches: Seq<(PeerId, BatchAggregatorView)>,
    author: PeerId,
    fresh: BatchAggregatorView,
)
    requires
        one_batch_per_author(batches),
        forall|k: int| 0 <= k < batches.len() ==> batches[k].0 != author,
    ensures
        one_batch_per_author(batches.push((author, fresh))),
        forall|other: PeerId| #[trigger]
            batch_of_author(batches.push((author, fresh)), other, fresh) == batch_of_author(
                batches,
                other,
                fresh,
            ),
{
    let added = batches.push((author, fresh));
    assert forall|other: PeerId| #[trigger]
        batch_of_author(added, other, fresh) == batch_of_author(batches, other, fresh) by {
        if other == author {
            let k = choose|k: int| 0 <= k < added.len() && added[k].0 == other;
            assert(added[batches.len() as int].0 == author);
            if k < batches.len() {
                assert(batches[k].0 == added[k].0);
            }
        } else if exists|k: int| 0 <= k < batches.len() && batches[k].0 == other {
            let a = choose|k: int| 0 <= k < batches.len() && batches[k].0 == other;
            assert(added[a].0 == other);
            let b = choose|k: int| 0 <= k < added.len() && added[k].0 == other;
            assert(b < batches.len());
            assert(batches[b].0 == other);
            assert(a == b);
        } else {
            assert forall|k: int| 0 <= k < added.len() implies added[k].0 != other by {
                if k < batches.len() {
                    assert(batches[k].0 == added[k].0);
                }
            }
        }
    }
}

/// One listener of the quorum store of an epoch.
pub struct NetworkListener {
    epoch: u64,
    max_batch_bytes: usize,
    remote: Vec<RemoteBatch>,
}

impl NetworkListener {
    pub closed spec fn epoch(&self) -> u64 {
        self.epoch
    }

    pub closed spec fn max_batch_bytes(&self) -> usize {
        self.max_batch_bytes
    }

    spec fn batches(&self) -> Seq<(PeerId, BatchAggregatorView)> {
        self.remote@.map_values(|r: RemoteBatch| (r.author, r.aggregator@))
    }

    /// The batch of `author` that is being assembled.
    pub closed spec fn aggregator(&self, author: PeerId) -> BatchAggregatorView {
        batch_of_author(self.batches(), author, idle(self.max_batch_bytes as nat))
    }

    /// What holds of every listener: it assembles one batch per author, each
    /// under the listener's byte budget.
    pub closed spec fn wf(&self) -> bool {
        &&& one_batch_per_author(self.batches())
        &&& forall|i: int|
            0 <= i < self.remote@.len() ==> (#[trigger] self.remote@[i]).aggregator.wf()
                && self.remote@[i].aggregator@.max_batch_bytes == self.max_batch_bytes
    }

    /// A listener of `epoch` that has seen no fragment yet.
    pub fn new(epoch: u64, max_batch_bytes: usize) -> (l: Self)
        ensures
            l.wf(),
            l.epoch() == epoch,
            l.max_batch_bytes() == max_batch_bytes,
            forall|author: PeerId| l.aggregator(author) == idle(max_batch_bytes as nat),
    {
        NetworkListener { epoch, max_batch_bytes, remote: Vec::new() }
    }

    /// Takes a whole batch: it is rejected if it holds more bytes than a
    /// batch may, or no transaction at all.
    pub fn handle_batch(&self, batch: Batch) -> (r: Result<ListenerStep, BatchAggregatorError>)
        ensures
            match batch_rejection(payload_view(batch.payload@), self.max_batch_bytes() as nat) {
                Some(e) => r matches Err(f) && f == e,
                None => {
                    &&& r matches Ok(ListenerStep::Persist(received))
                    &&& received == (ReceivedBatch {
                        author: batch.source,
                        payload: batch.payload,
                        num_bytes: total_bytes(payload_view(batch.payload@)) as usize,
                        expiration: batch.expiration,
                    })
                    &&& received.num_bytes == total_bytes(payload_view(batch.payload@))
                },
            },
    {
        let fresh = BatchAggregator::new(self.max_batch_bytes);
        match fresh.check_last_fragment(0, 0, &batch.payload) {
            Some(e) => Err(e),
            None => {
                let num_bytes = fresh.bytes_with(&batch.payload);
                Ok(
                    ListenerStep::Persist(
                        ReceivedBatch {
                            author: batch.source,
                            payload: batch.payload,
                            num_bytes,
                            expiration: batch.expiration,
                        },
                    ),
                )
            },
        }
    }

    /// Takes a signed digest: it goes on to the proof builder.
    pub fn handle_signed_digest(&self, signed_digest: SignedDigest) -> (step: ListenerStep)
        ensures
            step matches ListenerStep::ForwardToProofBuilder(s) && s == signed_digest,
    {
        ListenerStep::ForwardToProofBuilder(signed_digest)
    }

    /// The position at which the batch of `author` is assembled; a fresh
    /// batch is set up for an author that has none.
    fn slot(&mut self, author: PeerId) -> (i: usize)
        requires
            old(self).wf(),
        ensures
            final(self).wf(),
            final(self).epoch == old(self).epoch,
            final(self).max_batch_bytes == old(self).max_batch_bytes,
            i < final(self).remote@.len(),
            final(self).remote@[i as int].author == author,
            final(self).remote@[i as int].aggregator@ == old(self).aggregator(author),
            forall|other: PeerId| #[trigger] final(self).aggregator(other) == old(self).aggregator(other),
    {
        let mut i: usize = 0;
        while i < self.remote.len()
            invariant
                *self == *old(self),
                self.wf(),
                i <= self.remote.len(),
                forall|j: int| 0 <= j < i ==> self.remote@[j].author != author,
            decreases self.remote.len() - i,
        {
            if self.remote[i].author == author {
                proof {
                    assert(self.batches()[i as int] == (author, self.remote@[i as int].aggregator@));
                    lemma_batch_at(self.batches(), i as int, idle(self.max_batch_bytes as nat));
                }
                return i;
            }
            i += 1;
        }
        let ghost before = self.batches();
        let ghost fresh = idle(self.max_batch_bytes as nat);
        self.remote.push(
            RemoteBatch { author, aggregator: BatchAggregator::new(self.max_batch_bytes) },
        );
        proof {
            assert(self.batches() =~= before.push((author, fresh)));
            assert forall|k: int| 0 <= k < before.len() implies before[k].0 != author by {
                assert(before[k].0 == old(self).remote@[k].author);
            }
            lemma_batch_added(before, author, fresh);
            lemma_batch_at(self.batches(), i as int, fresh);
            assert(self.batches()[i as int] == (author, fresh));
        }
        i
    }

    /// Puts the batch `aggregator` in the place of the one at position `i`.
    fn put(&mut self, i: usize, aggregator: BatchAggregator) -> (previous: BatchAggregator)
        requires
            old(self).wf(),
            i < old(self).remote@.len(),
            aggregator.wf(),
            aggregator@.max_batch_bytes == old(self).max_batch_bytes,
        ensures
            final(self).wf(),
            final(self).epoch == old(self).epoch,
            final(self).max_batch_bytes == old(self).max_batch_bytes,
            previous == old(self).remote@[i as int].aggregator,
            final(self).remote@.len() == old(self).remote@.len(),
            final(self).remote@[i as int].author == old(self).remote@[i as int].author,
            forall|other: PeerId| #[trigger]
                final(self).aggregator(other) == (if other == old(self).remote@[i as int].author {
                    aggregator@
                } else {
                    old(self).aggregator(other)
                }),
    {
        let ghost before = self.batches();
        let entry = self.remote.remove(i);
        let author = entry.author;
        self.remote.insert(i, RemoteBatch { author, aggregator });
        proof {
            assert(before[i as int].0 == author);
            assert(self.batches() =~= before.update(i as int, (author, aggregator@)));
            lemma_batch_updated(
                before,
                i as int,
                aggregator@,
                idle(self.max_batch_bytes as nat),
            );
            assert forall|k: int| 0 <= k < self.remote@.len() implies (
            #[trigger] self.remote@[k]).aggregator.wf() && self.remote@[k].aggregator@.max_batch_bytes
                == self.max_batch_bytes by {
                if k != i {
                    assert(self.remote@[k] == old(self).remote@[k]);
                }
            }
        }
        entry.aggregator
    }

    /// Takes a fragment of another validator's batch and adds it to what has
    /// come of that batch. A fragment is held to the same rules as the
    /// validator's own: it must belong to the batch in progress, carry the
    /// number that is due, and keep the batch within its byte budget. A
    /// fragment with an expiration ends its batch, which then goes on to be
    /// stored. A rejected fragment changes nothing.
    pub fn handle_fragment(&mut self, fragment: Fragment) -> (r: Result<
        ListenerStep,
        BatchAggregatorError,
    >)
        requires
            old(self).wf(),
        ensures
            final(self).wf(),
            final(self).epoch() == old(self).epoch(),
            final(self).max_batch_bytes() == old(self).max_batch_bytes(),
            forall|author: PeerId|
                author != fragment.source ==> #[trigger] final(self).aggregator(author) == old(
                    self,
                ).aggregator(author),
            match fragment.maybe_expiration {
                None => match rejection(
                    old(self).aggregator(fragment.source),
                    fragment.batch_id,
                    fragment.fragment_id,
                    payload_view(fragment.payload@),
                ) {
                    Some(e) => r matches Err(f) && f == e && final(self).aggregator(fragment.source)
                        == old(self).aggregator(fragment.source),
                    None => r matches Ok(ListenerStep::Aggregated) && final(self).aggregator(
                        fragment.source,
                    ) == appended(
                        old(self).aggregator(fragment.source),
                        fragment.batch_id,
                        payload_view(fragment.payload@),
                    ),
                },
                Some(expiration) => match end_rejection(
                    old(self).aggregator(fragment.source),
                    fragment.batch_id,
                    fragment.fragment_id,
                    payload_view(fragment.payload@),
                ) {
                    Some(e) => r matches Err(f) && f == e && final(self).aggregator(fragment.source)
                        == old(self).aggregator(fragment.source),
                    None => {
                        &&& r matches Ok(ListenerStep::Persist(received))
                        &&& received.author == fragment.source
                        &&& received.expiration == expiration
                        &&& payload_view(received.payload@) == old(self).aggregator(
                            fragment.source,
                        ).payload + payload_view(fragment.payload@)
                        &&& received.num_bytes == total_bytes(payload_view(received.payload@))
                        &&& final(self).aggregator(fragment.source) == idle(
                            old(self).max_batch_bytes() as nat,
                        )
                    },
                },
            },
    {
        let i = self.slot(fragment.source);
        let mut aggregator = self.put(i, BatchAggregator::new(self.max_batch_bytes));
        let result = match fragment.maybe_expiration {
            None => match aggregator.append_transactions(
                fragment.batch_id,
                fragment.fragment_id,
                fragment.payload,
            ) {
                Ok(()) => Ok(ListenerStep::Aggregated),
                Err(e) => Err(e),
            },
            Some(expiration) => match aggregator.end_batch(
                fragment.batch_id,
                fragment.fragment_id,
                fragment.payload,
            ) {
                Ok((num_bytes, payload)) => Ok(
                    ListenerStep::Persist(
                        ReceivedBatch { author: fragment.source, payload, num_bytes, expiration },
                    ),
                ),
                Err(e) => Err(e),
            },
        };
        self.put(i, aggregator);
        result
    }
}

} // verus!
