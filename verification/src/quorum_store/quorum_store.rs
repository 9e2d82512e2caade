//! The worker that turns the commands of the batching loop into fragments on
//! the wire and, at the end of a batch, into a request for a proof and a
//! request to store the batch.

use crate::account_address::PeerId;
use crate::logical_time::{LogicalTime, Round};
use crate::quorum_store::batch_aggregator::{
    appended, digest_input, end_rejection, idle, rejection, BatchAggregator,
    BatchAggregatorError, BatchAggregatorView,
};
use crate::quorum_store::batch_store::{BatchStore, BatchStoreView};
use crate::quorum_store::network_listener::NetworkListener;
use crate::quorum_store::proof_builder::{OpenProof, ProofBuilder};
use crate::validator_verifier::ValidatorVerifier;
use crate::quorum_store::types::{
    clone_payload, concat_bytes, payload_view, total_bytes, BatchId, Fragment, HashValue,
    PersistRequest, SerializedTransaction, SignedDigestInfo,
};
use vstd::prelude::*;

verus! {

/// What the batching loop asks of the worker.
#[derive(Debug)]
pub enum QuorumStoreCommand {
    /// Add these transactions to the batch as its next fragment.
    AppendToBatch(Vec<SerializedTransaction>, BatchId),
    /// Add these transactions as the last fragment of the batch, which
    /// expires at the given time.
    EndBatch(Vec<SerializedTransaction>, BatchId, LogicalTime),
    /// Stop the quorum store.
    Shutdown,
}

/// Why no proof came back for a batch.
#[derive(Clone, Copy, Debug, PartialEq, Eq, Structural)]
pub enum QuorumStoreError {
    /// No quorum signed the batch in time.
    Timeout(BatchId),
}

/// The parameters of the quorum store.
#[derive(Clone, Copy, Debug, PartialEq, Eq, Structural)]
pub struct QuorumStoreConfig {
    pub channel_size: usize,
    pub proof_timeout_ms: usize,
    pub batch_request_num_peers: usize,
    pub end_batch_ms: u128,
    pub max_batch_bytes: usize,
    pub batch_request_timeout_ms: usize,
    /// A new batch expires this many rounds after the last committed round.
    pub batch_expiry_round_gap_when_init: Round,
    /// A received batch may expire at most this many rounds before the latest
    /// certified round,
    pub batch_expiry_round_gap_behind_latest_certified: Round,
    /// and at most this many rounds after it.
    pub batch_expiry_round_gap_beyond_latest_certified: Round,
    /// An expired batch is kept for this many more rounds, so that peers that
    /// lag behind can still fetch it.
    pub batch_expiry_grace_rounds: Round,
    /// Bytes of batches kept in memory,
    pub memory_quota: usize,
    /// and bytes of batches kept on disk.
    pub db_quota: usize,
    pub mempool_txn_pull_max_count: u64,
    pub mempool_txn_pull_max_bytes: u64,
    /// One network listener handles the fragments of this many validators.
    pub num_nodes_per_worker_handles: usize,
    /// Pulling from the mempool pauses while more than this factor times the
    /// number of validators of proofs are waiting to be committed.
    pub back_pressure_factor: usize,
}

/// A batch that the worker has completed and that has not been hashed yet.
#[derive(Debug)]
pub struct EndedBatch {
    pub author: PeerId,
    pub fragment: Fragment,
    pub num_bytes: usize,
    pub payload: Vec<SerializedTransaction>,
    pub expiration: LogicalTime,
}

/// What is sent out about a completed batch, in this order: the request for a
/// proof, the last fragment, the request to store the batch.
#[derive(Debug)]
pub struct BatchAnnouncement {
    pub proof_info: SignedDigestInfo,
    pub batch_id: BatchId,
    pub fragment: Fragment,
    pub persist_request: PersistRequest,
}

impl EndedBatch {
    /// The bytes to hash for the batch's digest: those of its transactions in
    /// order.
    pub fn digest_input(&self) -> (bytes: Vec<u8>)
        ensures
            bytes@ == concat_bytes(payload_view(self.payload@)),
    {
        digest_input(&self.payload)
    }

    /// Given the batch's digest, what is to be sent out about the batch.
    pub fn announce(self, digest: HashValue) -> (a: BatchAnnouncement)
        ensures
            a.proof_info == (SignedDigestInfo {
                digest,
                expiration: self.expiration,
                num_txns: self.payload@.len() as u64,
                num_bytes: self.num_bytes as u64,
            }),
            a.batch_id == self.fragment.batch_id,
            a.fragment == self.fragment,
            a.persist_request == (PersistRequest {
                author: self.author,
                payload: self.payload,
                digest,
                num_bytes: self.num_bytes,
                expiration: self.expiration,
            }),
    {
        let proof_info = SignedDigestInfo::new(
            digest,
            self.expiration,
            self.payload.len() as u64,
            self.num_bytes as u64,
        );
        let batch_id = self.fragment.batch_id();
        let persist_request = PersistRequest::new(
            self.author,
            self.payload,
            digest,
            self.num_bytes,
            self.expiration,
        );
        BatchAnnouncement { proof_info, batch_id, fragment: self.fragment, persist_request }
    }
}

/// One step of stopping the quorum store. Each is a message to an actor,
/// followed by waiting for its acknowledgment.
#[derive(Clone, Copy, Debug, PartialEq, Eq, Structural)]
pub enum QuorumStoreShutdownStep {
    StopBatchStore,
    StopProofBuilder,
    /// Stop the network listener with this index.
    StopNetworkListener(usize),
    /// Acknowledge to whoever asked for the shutdown.
    Acknowledge,
}

/// The steps that stop a quorum store with `listeners` network listeners, in
/// order: the batch store, the proof builder, the listeners by index, and the
/// acknowledgment last.
pub open spec fn spec_shutdown_steps(listeners: nat) -> Seq<QuorumStoreShutdownStep> {
    seq![QuorumStoreShutdownStep::StopBatchStore, QuorumStoreShutdownStep::StopProofBuilder]
        + Seq::new(listeners, |i: int| QuorumStoreShutdownStep::StopNetworkListener(i as usize))
        + seq![QuorumStoreShutdownStep::Acknowledge]
}

/// What the worker does for one command.
#[derive(Debug)]
pub enum QuorumStoreStep {
    /// Broadcast this fragment to the other validators.
    Broadcast(Fragment),
    /// Hash this batch and send out its announcement.
    Announce(EndedBatch),
    /// Perform these steps in order, then stop.
    Shutdown(Vec<QuorumStoreShutdownStep>),
}

/// Why the worker could not carry out a command. The worker's own fragments
/// are always due, so any of these points to a fault of the batching loop.
#[derive(Clone, Copy, Debug, PartialEq, Eq, Structural)]
pub enum QuorumStoreFault {
    /// The aggregator did not take the fragment.
    Aggregation(BatchAggregatorError),
    /// The batch has more fragments than can be numbered.
    TooManyFragments,
}

/// The actors that a quorum store runs beside its worker.
pub struct QuorumStoreActors {
    pub proof_builder: ProofBuilder,
    pub batch_store: BatchStore,
    /// One listener per inbound channel.
    pub network_listeners: Vec<NetworkListener>,
}

/// The worker of the quorum store of one epoch.
#[derive(Debug)]
pub struct QuorumStore {
    epoch: u64,
    my_peer_id: PeerId,
    fragment_id: usize,
    batch_aggregator: BatchAggregator,
    num_network_listeners: usize,
}

impl QuorumStore {
    pub closed spec fn epoch(&self) -> u64 {
        self.epoch
    }

    pub closed spec fn my_peer_id(&self) -> PeerId {
        self.my_peer_id
    }

    /// The number that the next fragment gets.
    pub closed spec fn fragment_id(&self) -> usize {
        self.fragment_id
    }

    /// The batch in progress.
    pub closed spec fn aggregator(&self) -> BatchAggregatorView {
        self.batch_aggregator@
    }

    /// The number of network listeners that this quorum store runs.
    pub closed spec fn network_listeners(&self) -> usize {
        self.num_network_listeners
    }

    /// What holds of the worker's aggregator at any time: it is a valid
    /// aggregator.
    pub closed spec fn aggregator_wf(&self) -> bool {
        self.batch_aggregator.wf()
    }

    /// Whether the worker's count is in step with its aggregator: the number
    /// of its next fragment is the one that the aggregator is waiting for.
    /// This holds between commands; it does not hold after a fragment was
    /// aggregated and before it was counted.
    pub closed spec fn in_step(&self) -> bool {
        self.fragment_id == self.batch_aggregator@.next_fragment_id
    }

    /// What holds of every worker between commands: its aggregator is valid
    /// and its count is in step with it.
    pub open spec fn wf(&self) -> bool {
        self.aggregator_wf() && self.in_step()
    }

    /// Between commands the number of the next fragment is the one that the
    /// aggregator is waiting for.
    pub proof fn lemma_in_step(&self)
        requires
            self.in_step(),
        ensures
            self.fragment_id() == self.aggregator().next_fragment_id,
    {
    }

    /// Sets up the quorum store of `my_peer_id` for `epoch`: the worker, with
    /// no batch in progress, and the actors that it feeds, each in its
    /// initial state.
    pub fn new(
        epoch: u64,
        last_committed_round: Round,
        my_peer_id: PeerId,
        num_network_listeners: usize,
        config: QuorumStoreConfig,
        validator_verifier: ValidatorVerifier,
    ) -> (r: (Self, QuorumStoreActors))
        ensures
            r.0.wf(),
            r.0.epoch() == epoch,
            r.0.my_peer_id() == my_peer_id,
            r.0.fragment_id() == 0,
            r.0.aggregator() == idle(config.max_batch_bytes as nat),
            r.0.network_listeners() == num_network_listeners,
            r.1.proof_builder.wf(),
            r.1.proof_builder@ == Seq::<OpenProof>::empty(),
            r.1.proof_builder.validators() == validator_verifier@,
            r.1.proof_builder.proof_timeout_ms() == config.proof_timeout_ms,
            r.1.batch_store.wf(),
            r.1.batch_store@ == (BatchStoreView {
                epoch,
                last_committed_round,
                batches: Seq::empty(),
                memory_balance: config.memory_quota as nat,
                db_balance: config.db_quota as nat,
                grace_rounds: config.batch_expiry_grace_rounds,
                max_expiry_gap: config.batch_expiry_round_gap_beyond_latest_certified,
            }),
            r.1.network_listeners@.len() == num_network_listeners,
            forall|i: int|
                0 <= i < num_network_listeners ==> {
                    let listener = #[trigger] r.1.network_listeners@[i];
                    &&& listener.wf()
                    &&& listener.epoch() == epoch
                    &&& listener.max_batch_bytes() == config.max_batch_bytes
                    &&& forall|author: PeerId| #[trigger]
                        listener.aggregator(author) == idle(config.max_batch_bytes as nat)
                },
    {
        let proof_builder = ProofBuilder::new(config.proof_timeout_ms, my_peer_id, validator_verifier);
        let batch_store = BatchStore::new(
            epoch,
            last_committed_round,
            config.memory_quota,
            config.db_quota,
            config.batch_expiry_grace_rounds,
            config.batch_expiry_round_gap_beyond_latest_certified,
        );
        let mut network_listeners: Vec<NetworkListener> = Vec::new();
        let mut i: usize = 0;
        while i < num_network_listeners
            invariant
                i <= num_network_listeners,
                network_listeners@.len() == i,
                forall|k: int|
                    0 <= k < i ==> {
                        let listener = #[trigger] network_listeners@[k];
                        &&& listener.wf()
                        &&& listener.epoch() == epoch
                        &&& listener.max_batch_bytes() == config.max_batch_bytes
                        &&& forall|author: PeerId| #[trigger]
                            listener.aggregator(author) == idle(config.max_batch_bytes as nat)
                    },
            decreases num_network_listeners - i,
        {
            network_listeners.push(NetworkListener::new(epoch, config.max_batch_bytes));
            i += 1;
        }
        (
            QuorumStore {
                epoch,
                my_peer_id,
                fragment_id: 0,
                batch_aggregator: BatchAggregator::new(config.max_batch_bytes),
                num_network_listeners,
            },
            QuorumStoreActors { proof_builder, batch_store, network_listeners },
        )
    }

    /// Why the worker in this state cannot append `payload` to batch
    /// `batch_id`, or `None` if it can.
    pub open spec fn append_fault(
        &self,
        payload: Seq<Seq<u8>>,
        batch_id: BatchId,
    ) -> Option<QuorumStoreFault> {
        match rejection(self.aggregator(), batch_id, self.fragment_id(), payload) {
            Some(e) => Some(QuorumStoreFault::Aggregation(e)),
            None => if self.fragment_id() == usize::MAX {
                Some(QuorumStoreFault::TooManyFragments)
            } else {
                None
            },
        }
    }

    /// Why the worker in this state cannot end batch `batch_id` with
    /// `payload`, or `None` if it can.
    pub open spec fn end_fault(
        &self,
        payload: Seq<Seq<u8>>,
        batch_id: BatchId,
    ) -> Option<QuorumStoreFault> {
        match end_rejection(self.aggregator(), batch_id, self.fragment_id(), payload) {
            Some(e) => Some(QuorumStoreFault::Aggregation(e)),
            None => None,
        }
    }

    /// Aggregates the next fragment of the worker's own batch, under the
    /// worker's current fragment number, and wraps it for the wire. The
    /// number itself is left as it is: counting is the command loop's.
    pub fn handle_append_to_batch(
        &mut self,
        fragment_payload: Vec<SerializedTransaction>,
        batch_id: BatchId,
    ) -> (fragment: Fragment)
        requires
            old(self).aggregator_wf(),
            rejection(
                old(self).aggregator(),
                batch_id,
                old(self).fragment_id(),
                payload_view(fragment_payload@),
            ).is_none(),
        ensures
            final(self).aggregator_wf(),
            fragment == (Fragment {
                epoch: old(self).epoch(),
                batch_id,
                fragment_id: old(self).fragment_id(),
                payload: fragment_payload,
                maybe_expiration: None,
                source: old(self).my_peer_id(),
            }),
            final(self).fragment_id() == old(self).fragment_id(),
            final(self).aggregator() == appended(
                old(self).aggregator(),
                batch_id,
                payload_view(fragment_payload@),
            ),
            final(self).epoch() == old(self).epoch(),
            final(self).my_peer_id() == old(self).my_peer_id(),
            final(self).network_listeners() == old(self).network_listeners(),
    {
        let copy = clone_payload(&fragment_payload);
        self.batch_aggregator.append_transactions(batch_id, self.fragment_id, copy).unwrap();
        Fragment::new(self.epoch, batch_id, self.fragment_id, fragment_payload, None, self.my_peer_id)
    }

    /// Aggregates the last fragment of the worker's own batch, under the
    /// worker's current fragment number, wraps it for the wire with the
    /// batch's expiration, and hands out the completed batch. The number
    /// itself is left as it is: starting over is the command loop's.
    pub fn handle_end_batch(
        &mut self,
        fragment_payload: Vec<SerializedTransaction>,
        batch_id: BatchId,
        expiration: LogicalTime,
    ) -> (ended: EndedBatch)
        requires
            old(self).aggregator_wf(),
            end_rejection(
                old(self).aggregator(),
                batch_id,
                old(self).fragment_id(),
                payload_view(fragment_payload@),
            ).is_none(),
        ensures
            final(self).aggregator_wf(),
            ended.fragment == (Fragment {
                epoch: old(self).epoch(),
                batch_id,
                fragment_id: old(self).fragment_id(),
                payload: fragment_payload,
                maybe_expiration: Some(expiration),
                source: old(self).my_peer_id(),
            }),
            ended.author == old(self).my_peer_id(),
            ended.expiration == expiration,
            payload_view(ended.payload@) == old(self).aggregator().payload + payload_view(
                fragment_payload@,
            ),
            ended.num_bytes == total_bytes(payload_view(ended.payload@)),
            final(self).fragment_id() == old(self).fragment_id(),
            final(self).aggregator() == idle(old(self).aggregator().max_batch_bytes),
            final(self).epoch() == old(self).epoch(),
            final(self).my_peer_id() == old(self).my_peer_id(),
            final(self).network_listeners() == old(self).network_listeners(),
    {
        let copy = clone_payload(&fragment_payload);
        let (num_bytes, payload) = self.batch_aggregator.end_batch(
            batch_id,
            self.fragment_id,
            copy,
        ).unwrap();
        let fragment = Fragment::new(
            self.epoch,
            batch_id,
            self.fragment_id,
            fragment_payload,
            Some(expiration),
            self.my_peer_id,
        );
        EndedBatch { author: self.my_peer_id, fragment, num_bytes, payload, expiration }
    }

    /// The steps that stop this quorum store, in order.
    pub fn shutdown_steps(&self) -> (steps: Vec<QuorumStoreShutdownStep>)
        ensures
            steps@ == spec_shutdown_steps(self.network_listeners() as nat),
    {
        let mut steps: Vec<QuorumStoreShutdownStep> = Vec::new();
        steps.push(QuorumStoreShutdownStep::StopBatchStore);
        steps.push(QuorumStoreShutdownStep::StopProofBuilder);
        let ghost head = steps@;
        let mut i: usize = 0;
        while i < self.num_network_listeners
            invariant
                i <= self.num_network_listeners,
                steps@ == head + Seq::new(
                    i as nat,
                    |k: int| QuorumStoreShutdownStep::StopNetworkListener(k as usize),
                ),
            decreases self.num_network_listeners - i,
        {
            steps.push(QuorumStoreShutdownStep::StopNetworkListener(i));
            assert(steps@ =~= head + Seq::new(
                (i + 1) as nat,
                |k: int| QuorumStoreShutdownStep::StopNetworkListener(k as usize),
            ));
            i += 1;
        }
        steps.push(QuorumStoreShutdownStep::Acknowledge);
        assert(steps@ =~= spec_shutdown_steps(self.num_network_listeners as nat));
        steps
    }

    /// Carries out one command of the batching loop and says what is to be
    /// done for it. After a fragment was aggregated the worker counts up, and
    /// after a batch was ended it starts over at fragment 0. A command that
    /// the aggregator does not take is a fault and leaves the worker as it
    /// was.
    pub fn handle_command(&mut self, command: QuorumStoreCommand) -> (r: Result<
        QuorumStoreStep,
        QuorumStoreFault,
    >)
        requires
            old(self).wf(),
        ensures
            final(self).wf(),
            final(self).epoch() == old(self).epoch(),
            final(self).my_peer_id() == old(self).my_peer_id(),
            final(self).network_listeners() == old(self).network_listeners(),
            match command {
                QuorumStoreCommand::AppendToBatch(payload, batch_id) => match old(
                    self,
                ).append_fault(payload_view(payload@), batch_id) {
                    Some(fault) => r == Err::<QuorumStoreStep, QuorumStoreFault>(fault) && *final(self)
                        == *old(self),
                    None => {
                        &&& r matches Ok(QuorumStoreStep::Broadcast(fragment))
                        &&& fragment == (Fragment {
                            epoch: old(self).epoch(),
                            batch_id,
                            fragment_id: old(self).fragment_id(),
                            payload,
                            maybe_expiration: None,
                            source: old(self).my_peer_id(),
                        })
                        &&& final(self).fragment_id() == old(self).fragment_id() + 1
                        &&& final(self).aggregator() == appended(
                            old(self).aggregator(),
                            batch_id,
                            payload_view(payload@),
                        )
                    },
                },
                QuorumStoreCommand::EndBatch(payload, batch_id, expiration) => match old(
                    self,
                ).end_fault(payload_view(payload@), batch_id) {
                    Some(fault) => r == Err::<QuorumStoreStep, QuorumStoreFault>(fault) && *final(self)
                        == *old(self),
                    None => {
                        &&& r matches Ok(QuorumStoreStep::Announce(ended))
                        &&& ended.fragment == (Fragment {
                            epoch: old(self).epoch(),
                            batch_id,
                            fragment_id: old(self).fragment_id(),
                            payload,
                            maybe_expiration: Some(expiration),
                            source: old(self).my_peer_id(),
                        })
                        &&& ended.author == old(self).my_peer_id()
                        &&& ended.expiration == expiration
                        &&& payload_view(ended.payload@) == old(self).aggregator().payload
                            + payload_view(payload@)
                        &&& ended.num_bytes == total_bytes(payload_view(ended.payload@))
                        &&& final(self).fragment_id() == 0
                        &&& final(self).aggregator() == idle(
                            old(self).aggregator().max_batch_bytes,
                        )
                    },
                },
                QuorumStoreCommand::Shutdown => {
                    &&& r matches Ok(QuorumStoreStep::Shutdown(steps))
                    &&& steps@ == spec_shutdown_steps(old(self).network_listeners() as nat)
                    &&& *final(self) == *old(self)
                },
            },
    {
        match command {
            QuorumStoreCommand::AppendToBatch(payload, batch_id) => {
                match self.batch_aggregator.check_fragment(batch_id, self.fragment_id, &payload) {
                    Some(e) => Err(QuorumStoreFault::Aggregation(e)),
                    None => {
                        if self.fragment_id == usize::MAX {
                            Err(QuorumStoreFault::TooManyFragments)
                        } else {
                            let fragment = self.handle_append_to_batch(payload, batch_id);
                            self.fragment_id = self.fragment_id + 1;
                            Ok(QuorumStoreStep::Broadcast(fragment))
                        }
                    },
                }
            },
            QuorumStoreCommand::EndBatch(payload, batch_id, expiration) => {
                match self.batch_aggregator.check_last_fragment(
                    batch_id,
                    self.fragment_id,
                    &payload,
                ) {
                    Some(e) => Err(QuorumStoreFault::Aggregation(e)),
                    None => {
                        let ended = self.handle_end_batch(payload, batch_id, expiration);
                        self.fragment_id = 0;
                        Ok(QuorumStoreStep::Announce(ended))
                    },
                }
            },
            QuorumStoreCommand::Shutdown => Ok(QuorumStoreStep::Shutdown(self.shutdown_steps())),
        }
    }
}

} // verus!
