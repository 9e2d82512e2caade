//! The epoch manager: the supervisor that owns the actors of the current
//! epoch, tears them down in order when the epoch ends, sets up those of the
//! next, and routes each event from the network to the actor that takes it.
//!
//! The manager here holds what the supervisor knows and decides what is to be
//! done; sending, waiting and spawning are the caller's. Every function says
//! in its result what the caller has to carry out, in order.

use crate::account_address::{AccountAddress, Author};
use crate::logical_time::Round;
use crate::network_interface::{
    spec_kind, spec_unverified_event, ConsensusMsg, EpochRetrievalRequest, EventKind,
    UnverifiedEvent, VerifiedEvent,
};
use crate::onchain_config::OnChainConsensusConfig;
use crate::proposer_election::{
    create_proposer_election, election_error, is_election, ElectionError, HistoryFetch,
    ProposerElection,
};
use crate::quorum_store::quorum_store::QuorumStoreConfig;
use crate::validator_verifier::{is_validator, EpochState, ValidatorConsensusInfo};
use vstd::prelude::*;

verus! {

/// The node's own consensus settings, as far as the supervisor reads them.
#[derive(Clone, Copy, Debug, PartialEq, Eq, Structural)]
pub struct ConsensusConfig {
    pub channel_size: usize,
    pub intra_consensus_channel_buffer_size: usize,
    pub max_pruned_blocks_in_mem: usize,
    pub max_sending_block_txns: u64,
    pub max_sending_block_bytes: u64,
    pub mempool_executed_txn_timeout_ms: u64,
    pub mempool_txn_pull_timeout_ms: u64,
    pub quorum_store_poll_count: u64,
    pub quorum_store_pull_timeout_ms: u64,
    pub round_initial_timeout_ms: u64,
    pub round_timeout_backoff_max_exponent: usize,
    pub use_quorum_store: bool,
}

/// What is known of the ledger where consensus data could not be recovered
/// in full.
#[derive(Clone, Copy, Debug, PartialEq, Eq, Structural)]
pub struct LedgerRecoveryData {
    committed_round: Round,
}

impl LedgerRecoveryData {
    pub fn new(committed_round: Round) -> (d: Self)
        ensures
            d.committed_round() == committed_round,
    {
        LedgerRecoveryData { committed_round }
    }

    /// The round of the last committed block.
    #[verifier::when_used_as_spec(spec_committed_round)]
    pub fn committed_round(&self) -> (r: Round)
        ensures
            r == self.committed_round(),
    {
        self.committed_round
    }

    pub closed spec fn spec_committed_round(&self) -> Round {
        self.committed_round
    }
}

/// What consensus recovered of its own state: the round of the root block and
/// the round of the node's last vote in this epoch, if it cast one.
#[derive(Clone, Copy, Debug, PartialEq, Eq, Structural)]
pub struct RecoveryData {
    pub root_round: Round,
    pub last_vote: Option<Round>,
}

/// What liveness storage holds at the start of an epoch.
#[derive(Clone, Copy, Debug, PartialEq, Eq, Structural)]
pub enum LivenessStorageData {
    /// Everything needed to resume the round manager.
    FullRecoveryData(RecoveryData),
    /// Only the ledger: the node has to catch up before it takes part.
    PartialRecoveryData(LedgerRecoveryData),
}

/// Where the latest ledger info stands.
#[derive(Clone, Copy, Debug, PartialEq, Eq, Structural)]
pub struct LedgerCommit {
    pub epoch: u64,
    pub round: Round,
}

/// Why the supervisor did not act on an input.
#[derive(Clone, Copy, Debug, PartialEq, Eq, Structural)]
pub enum EpochManagerError {
    /// No epoch has been started yet.
    NotStarted,
    /// A message of the current epoch was handed in as one of another epoch.
    SameEpoch,
    /// An epoch-change proof without an epoch in it.
    InvalidEpochChangeProof,
    /// An epoch-change proof for another epoch than the current one.
    UnexpectedEpochProof { msg_epoch: u64, local_epoch: u64 },
    /// A request for epochs that this node has not seen end.
    EpochRetrievalBeyondLocal,
    /// A message that the supervisor does not take.
    UnexpectedMessage,
    /// A quorum-store message while no wrapper runs.
    WrapperNotStarted,
    /// A quorum-store message for a listener that does not run.
    ListenerNotStarted,
    /// A commit message while no buffer manager runs.
    CommitPhaseNotStarted,
    /// An event for the round manager while none runs.
    RoundManagerNotStarted,
    /// An epoch was to be started while actors of the last one still run.
    ActorsStillRunning,
    /// The quorum store needs the latest ledger info, and none was given.
    LatestLedgerInfoMissing,
    /// The leader election could not be set up.
    Election(ElectionError),
}

/// What the supervisor does about a message.
#[derive(Clone, Copy, Debug, PartialEq, Eq, Structural)]
pub enum EpochAction {
    /// The message belongs to the current epoch: check its signatures against
    /// the validator set, then route the verified event.
    Verify(UnverifiedEvent),
    /// Drop the message.
    Discard,
    /// Read the proofs asked for from the ledger and send them to the peer.
    SendEpochProof(EpochRetrievalRequest),
    /// Ask the peer for the proofs that lead to its epoch.
    RequestEpochProof(EpochRetrievalRequest),
    /// The message proves that the current epoch ended: verify the proof and
    /// start the next epoch.
    InitiateNewEpoch,
}

/// The actor that takes an event.
#[derive(Clone, Copy, Debug, PartialEq, Eq)]
pub enum Route {
    /// The quorum-store wrapper.
    QuorumStoreWrapper,
    /// The network listener with this index.
    NetworkListener(usize),
    /// The buffer manager of the commit pipeline.
    BufferManager,
    /// The round manager, under the key of sender and kind: of the events
    /// with one key only the latest is kept.
    RoundManager(Author, EventKind),
}

/// One step of an epoch change, in the order in which the steps are taken.
/// A step that addresses an actor includes waiting for its acknowledgment.
#[derive(Clone, Copy, Debug, PartialEq, Eq, Structural)]
pub enum SupervisorStep {
    /// Tell the round manager to close.
    CloseRoundManager,
    /// Tell the quorum-store wrapper to stop.
    StopQuorumStoreWrapper,
    /// Drop the sender of commit messages and tell the buffer manager to
    /// reset and stop.
    StopBufferManager,
    /// Drop the sender of block-retrieval requests, which ends the task.
    DropBlockRetrieval,
    /// Bring the ledger to the ledger info that ends the epoch.
    SyncToNewEpoch,
    /// Wait for the reconfiguration notification of the next epoch.
    AwaitReconfigNotification,
}

/// The parameters of the quorum-store wrapper.
#[derive(Clone, Copy, Debug, PartialEq, Eq, Structural)]
pub struct WrapperSetup {
    pub mempool_txn_pull_timeout_ms: u64,
    pub mempool_txn_pull_max_count: u64,
    pub mempool_txn_pull_max_bytes: u64,
    pub max_batch_bytes: u64,
    pub batch_expiry_round_gap_when_init: Round,
    pub batch_expiry_round_gap_behind_latest_certified: Round,
    pub batch_expiry_round_gap_beyond_latest_certified: Round,
    pub end_batch_ms: u128,
    /// The wrapper stops pulling while more proofs than this are pending.
    pub back_pressure_limit: usize,
}

impl WrapperSetup {
    /// The most bytes to pull from the mempool at once: no more than the
    /// mempool is asked for at most, and no more than a batch may hold.
    pub fn pull_max_bytes(&self) -> (n: u64)
        ensures
            n == (if self.mempool_txn_pull_max_bytes <= self.max_batch_bytes {
                self.mempool_txn_pull_max_bytes
            } else {
                self.max_batch_bytes
            }),
    {
        if self.mempool_txn_pull_max_bytes <= self.max_batch_bytes {
            self.mempool_txn_pull_max_bytes
        } else {
            self.max_batch_bytes
        }
    }
}

/// What it takes to run the quorum store of an epoch.
#[derive(Clone, Copy, Debug, PartialEq, Eq, Structural)]
pub struct QuorumStoreSetup {
    pub config: QuorumStoreConfig,
    /// The number of network listeners: one for batches, one for signed
    /// digests, and the rest for fragments.
    pub num_network_listeners: usize,
    /// The last committed round of this epoch, 0 if the ledger is not in it yet.
    pub last_committed_round: Round,
    pub wrapper: WrapperSetup,
}

/// Where blocks get their payload from.
#[derive(Clone, Copy, Debug, PartialEq, Eq, Structural)]
pub enum PayloadSource {
    /// Straight from the mempool.
    DirectMempool { mempool_txn_pull_timeout_ms: u64 },
    /// From the quorum store.
    QuorumStore(QuorumStoreSetup),
}

/// What it takes to run the round manager of an epoch and the actors around it.
#[derive(Debug)]
pub struct RoundManagerSetup {
    pub epoch: u64,
    pub last_vote: Option<Round>,
    pub proposer_election: ProposerElection,
    pub payload_source: PayloadSource,
    /// Whether the commit pipeline with its buffer manager is spawned.
    pub decoupled_execution: bool,
}

/// What it takes to run the recovery manager of an epoch.
#[derive(Clone, Copy, Debug, PartialEq, Eq, Structural)]
pub struct RecoveryManagerSetup {
    pub epoch: u64,
    pub committed_round: Round,
}

/// The actors to spawn at the start of an epoch.
#[derive(Debug)]
pub enum EpochStart {
    RoundManager(RoundManagerSetup),
    RecoveryManager(RecoveryManagerSetup),
}

/// The bytes of disk that the quorum store may take: ten thousand million,
/// or all that the machine's word can count where that is less.
pub open spec fn spec_db_quota() -> usize {
    if 10000000000int <= usize::MAX {
        10000000000int as usize
    } else {
        usize::MAX
    }
}

/// The quorum-store parameters that every epoch starts with.
pub open spec fn spec_quorum_store_config() -> QuorumStoreConfig {
    QuorumStoreConfig {
        channel_size: 100,
        proof_timeout_ms: 10000,
        batch_request_num_peers: 2,
        end_batch_ms: 500,
        max_batch_bytes: 100000,
        batch_request_timeout_ms: 10000,
        batch_expiry_round_gap_when_init: 150,
        batch_expiry_round_gap_behind_latest_certified: 50,
        batch_expiry_round_gap_beyond_latest_certified: 300,
        batch_expiry_grace_rounds: 5,
        memory_quota: 100000000,
        db_quota: spec_db_quota(),
        mempool_txn_pull_max_count: 100,
        mempool_txn_pull_max_bytes: 1000000,
        num_nodes_per_worker_handles: 2,
        back_pressure_factor: 1,
    }
}

/// The quorum-store parameters that every epoch starts with.
pub fn quorum_store_config() -> (c: QuorumStoreConfig)
    ensures
        c == spec_quorum_store_config(),
{
    let hundred_thousand: usize = 100000;
    let db_quota: usize = match hundred_thousand.checked_mul(hundred_thousand) {
        Some(bytes) => bytes,
        None => usize::MAX,
    };
    QuorumStoreConfig {
        channel_size: 100,
        proof_timeout_ms: 10000,
        batch_request_num_peers: 2,
        end_batch_ms: 500,
        max_batch_bytes: 100000,
        batch_request_timeout_ms: 10000,
        batch_expiry_round_gap_when_init: 150,
        batch_expiry_round_gap_behind_latest_certified: 50,
        batch_expiry_round_gap_beyond_latest_certified: 300,
        batch_expiry_grace_rounds: 5,
        memory_quota: 100000000,
        db_quota,
        mempool_txn_pull_max_count: 100,
        mempool_txn_pull_max_bytes: 1000000,
        num_nodes_per_worker_handles: 2,
        back_pressure_factor: 1,
    }
}

/// The number of listeners for fragments among `num_validators` validators,
/// one for every `nodes_per_worker` of them and at least one.
pub open spec fn spec_fragment_workers(num_validators: nat, nodes_per_worker: usize) -> nat {
    if num_validators / nodes_per_worker as nat >= 1 {
        num_validators / nodes_per_worker as nat
    } else {
        1
    }
}

/// The last committed round of `epoch` by the latest ledger info: its round
/// if it is of this epoch, else 0.
pub open spec fn spec_last_committed_round(epoch: u64, latest: LedgerCommit) -> Round {
    if latest.epoch == epoch {
        latest.round
    } else {
        0
    }
}

/// The parameters of the wrapper under `config` with `qs_config`, among
/// `num_validators` validators.
pub open spec fn spec_wrapper_setup(
    config: ConsensusConfig,
    qs_config: QuorumStoreConfig,
    num_validators: nat,
) -> WrapperSetup {
    WrapperSetup {
        mempool_txn_pull_timeout_ms: config.mempool_txn_pull_timeout_ms,
        mempool_txn_pull_max_count: qs_config.mempool_txn_pull_max_count,
        mempool_txn_pull_max_bytes: qs_config.mempool_txn_pull_max_bytes,
        max_batch_bytes: qs_config.max_batch_bytes as u64,
        batch_expiry_round_gap_when_init: qs_config.batch_expiry_round_gap_when_init,
        batch_expiry_round_gap_behind_latest_certified: qs_config.batch_expiry_round_gap_behind_latest_certified,
        batch_expiry_round_gap_beyond_latest_certified: qs_config.batch_expiry_round_gap_beyond_latest_certified,
        end_batch_ms: qs_config.end_batch_ms,
        back_pressure_limit: (qs_config.back_pressure_factor * num_validators) as usize,
    }
}

/// The quorum store of `epoch` among `num_validators` validators.
pub open spec fn spec_quorum_store_setup(
    config: ConsensusConfig,
    epoch: u64,
    num_validators: nat,
    latest: LedgerCommit,
) -> QuorumStoreSetup {
    let qs_config = spec_quorum_store_config();
    QuorumStoreSetup {
        config: qs_config,
        num_network_listeners: (spec_fragment_workers(
            num_validators,
            qs_config.num_nodes_per_worker_handles,
        ) + 2) as usize,
        last_committed_round: spec_last_committed_round(epoch, latest),
        wrapper: spec_wrapper_setup(config, qs_config, num_validators),
    }
}

/// The listener that takes the fragments of `peer` where `workers` listeners
/// share the fragments: listeners 0 and 1 take batches and signed digests, and
/// the first byte of the peer's address picks among the others.
pub open spec fn fragment_listener(peer: AccountAddress, workers: usize) -> int {
    peer@[0] as int % workers as int + 2
}

/// What the supervisor knows, as plain values.
pub struct EpochManagerView {
    pub author: Author,
    pub config: ConsensusConfig,
    /// The current epoch, once one has started.
    pub epoch: Option<u64>,
    /// The validators of the current epoch.
    pub validators: Seq<ValidatorConsensusInfo>,
    /// Whether a round manager, or a recovery manager in its place, runs.
    pub round_manager: bool,
    /// Whether a quorum-store wrapper runs.
    pub wrapper: bool,
    /// Whether a buffer manager runs.
    pub buffer_manager: bool,
    /// Whether a block-retrieval task runs.
    pub block_retrieval: bool,
    /// The number of listeners that share the fragments.
    pub fragment_workers: usize,
    /// The number of network listeners that were last set up.
    pub listeners: usize,
}

impl EpochManagerView {
    /// Whether no actor of an epoch runs.
    pub open spec fn quiescent(self) -> bool {
        !self.round_manager && !self.wrapper && !self.buffer_manager && !self.block_retrieval
    }

    /// The listeners are either not set up or as many as share the fragments,
    /// and two more.
    pub open spec fn listeners_consistent(self) -> bool {
        &&& self.fragment_workers >= 1
        &&& self.listeners == 0 || self.listeners == self.fragment_workers + 2
    }

    /// How many round managers, wrappers and buffer managers run.
    pub open spec fn census(self) -> (nat, nat, nat) {
        (
            if self.round_manager { 1 } else { 0 },
            if self.wrapper { 1 } else { 0 },
            if self.buffer_manager { 1 } else { 0 },
        )
    }
}

/// The steps that stop the actors that run in `v`, in order: the round
/// manager first, then the quorum-store wrapper, then the buffer manager, and
/// the block-retrieval task last.
pub open spec fn spec_shutdown_steps(v: EpochManagerView) -> Seq<SupervisorStep> {
    (if v.round_manager { seq![SupervisorStep::CloseRoundManager] } else { Seq::empty() })
        + (if v.wrapper { seq![SupervisorStep::StopQuorumStoreWrapper] } else { Seq::empty() })
        + (if v.buffer_manager { seq![SupervisorStep::StopBufferManager] } else { Seq::empty() })
        + (if v.block_retrieval { seq![SupervisorStep::DropBlockRetrieval] } else { Seq::empty() })
}

/// The supervisor `v` after all its actors have stopped.
pub open spec fn stopped(v: EpochManagerView) -> EpochManagerView {
    EpochManagerView {
        round_manager: false,
        wrapper: false,
        buffer_manager: false,
        block_retrieval: false,
        ..v
    }
}

/// What the supervisor of epoch `local_epoch` does about a message of
/// another epoch, `different_epoch`, given whether it is itself a validator.
pub open spec fn spec_different_epoch(
    local_epoch: u64,
    is_validator: bool,
    different_epoch: u64,
) -> Result<EpochAction, EpochManagerError> {
    if different_epoch < local_epoch {
        if is_validator {
            Ok(EpochAction::Discard)
        } else {
            Ok(
                EpochAction::SendEpochProof(
                    EpochRetrievalRequest { start_epoch: different_epoch, end_epoch: local_epoch },
                ),
            )
        }
    } else if different_epoch > local_epoch {
        Ok(
            EpochAction::RequestEpochProof(
                EpochRetrievalRequest { start_epoch: local_epoch, end_epoch: different_epoch },
            ),
        )
    } else {
        Err(EpochManagerError::SameEpoch)
    }
}

/// What the supervisor of epoch `local_epoch` does about `msg`.
pub open spec fn spec_check_epoch(
    local_epoch: u64,
    is_validator: bool,
    msg: ConsensusMsg,
) -> Result<EpochAction, EpochManagerError> {
    match msg {
        ConsensusMsg::EpochChangeProof(proof_epoch) => match proof_epoch {
            None => Err(EpochManagerError::InvalidEpochChangeProof),
            Some(msg_epoch) => if msg_epoch == local_epoch {
                Ok(EpochAction::InitiateNewEpoch)
            } else {
                Err(EpochManagerError::UnexpectedEpochProof { msg_epoch, local_epoch })
            },
        },
        ConsensusMsg::EpochRetrievalRequest(request) => if request.end_epoch <= local_epoch {
            Ok(EpochAction::SendEpochProof(request))
        } else {
            Err(EpochManagerError::EpochRetrievalBeyondLocal)
        },
        _ => match spec_unverified_event(msg) {
            Some(event) => if event.epoch == local_epoch {
                Ok(EpochAction::Verify(event))
            } else {
                spec_different_epoch(local_epoch, is_validator, event.epoch)
            },
            None => Err(EpochManagerError::UnexpectedMessage),
        },
    }
}

/// Where the supervisor `v` sends the verified `event` that came from `peer`.
pub open spec fn spec_route(
    v: EpochManagerView,
    peer: AccountAddress,
    event: VerifiedEvent,
) -> Result<Route, EpochManagerError> {
    match event {
        VerifiedEvent::ProofOfStoreBroadcast => if v.wrapper {
            Ok(Route::QuorumStoreWrapper)
        } else {
            Err(EpochManagerError::WrapperNotStarted)
        },
        VerifiedEvent::Batch => if v.listeners > 0 {
            Ok(Route::NetworkListener(0))
        } else {
            Err(EpochManagerError::ListenerNotStarted)
        },
        VerifiedEvent::SignedDigest => if v.listeners > 1 {
            Ok(Route::NetworkListener(1))
        } else {
            Err(EpochManagerError::ListenerNotStarted)
        },
        VerifiedEvent::Fragment => if v.listeners > 0 {
            Ok(Route::NetworkListener(fragment_listener(peer, v.fragment_workers) as usize))
        } else {
            Err(EpochManagerError::ListenerNotStarted)
        },
        VerifiedEvent::CommitVote | VerifiedEvent::CommitDecision => if v.buffer_manager {
            Ok(Route::BufferManager)
        } else {
            Err(EpochManagerError::CommitPhaseNotStarted)
        },
        _ => if v.round_manager {
            Ok(Route::RoundManager(peer, spec_kind(event)))
        } else {
            Err(EpochManagerError::RoundManagerNotStarted)
        },
    }
}

/// Whether starting the epoch of `validators` from the supervisor `before`
/// comes to the result `r` and the supervisor `after`.
pub open spec fn is_epoch_start(
    r: Result<EpochStart, EpochManagerError>,
    before: EpochManagerView,
    after: EpochManagerView,
    epoch: u64,
    validators: Seq<ValidatorConsensusInfo>,
    onchain_config: OnChainConsensusConfig,
    storage_data: LivenessStorageData,
    latest_commit: Option<LedgerCommit>,
    history: HistoryFetch,
) -> bool {
    if !before.quiescent() {
        r == Err::<EpochStart, EpochManagerError>(EpochManagerError::ActorsStillRunning) && after
            == before
    } else {
        match storage_data {
            LivenessStorageData::PartialRecoveryData(ledger_data) => {
                &&& r matches Ok(EpochStart::RecoveryManager(setup))
                &&& setup == (RecoveryManagerSetup {
                    epoch,
                    committed_round: ledger_data.committed_round(),
                })
                &&& after == (EpochManagerView {
                    epoch: Some(epoch),
                    validators,
                    round_manager: true,
                    ..before
                })
            },
            LivenessStorageData::FullRecoveryData(recovery_data) => {
                if election_error(validators, onchain_config).is_some() {
                    r == Err::<EpochStart, EpochManagerError>(
                        EpochManagerError::Election(
                            election_error(validators, onchain_config).unwrap(),
                        ),
                    ) && after == before
                } else if before.config.use_quorum_store && latest_commit.is_none() {
                    r == Err::<EpochStart, EpochManagerError>(
                        EpochManagerError::LatestLedgerInfoMissing,
                    ) && after == before
                } else {
                    &&& r matches Ok(EpochStart::RoundManager(setup))
                    &&& setup.epoch == epoch
                    &&& setup.last_vote == recovery_data.last_vote
                    &&& is_election(
                        setup.proposer_election,
                        before.author,
                        epoch,
                        validators,
                        onchain_config,
                        history,
                    )
                    &&& setup.decoupled_execution == onchain_config.decoupled_execution
                    &&& setup.payload_source == (if before.config.use_quorum_store {
                        PayloadSource::QuorumStore(
                            spec_quorum_store_setup(
                                before.config,
                                epoch,
                                validators.len(),
                                latest_commit.unwrap(),
                            ),
                        )
                    } else {
                        PayloadSource::DirectMempool {
                            mempool_txn_pull_timeout_ms: before.config.mempool_txn_pull_timeout_ms,
                        }
                    })
                    &&& after == (EpochManagerView {
                        epoch: Some(epoch),
                        validators,
                        round_manager: true,
                        wrapper: before.config.use_quorum_store,
                        buffer_manager: onchain_config.decoupled_execution,
                        block_retrieval: true,
                        fragment_workers: if before.config.use_quorum_store {
                            spec_fragment_workers(
                                validators.len(),
                                spec_quorum_store_config().num_nodes_per_worker_handles,
                            ) as usize
                        } else {
                            before.fragment_workers
                        },
                        listeners: if before.config.use_quorum_store {
                            (spec_fragment_workers(
                                validators.len(),
                                spec_quorum_store_config().num_nodes_per_worker_handles,
                            ) + 2) as usize
                        } else {
                            before.listeners
                        },
                        ..before
                    })
                }
            },
        }
    }
}

/// The supervisor of consensus epochs.
#[derive(Debug)]
pub struct EpochManager {
    author: Author,
    config: ConsensusConfig,
    epoch_state: Option<EpochState>,
    round_manager_started: bool,
    wrapper_started: bool,
    buffer_manager_started: bool,
    block_retrieval_started: bool,
    num_network_workers_for_fragment: usize,
    num_network_listeners: usize,
}

impl View for EpochManager {
    type V = EpochManagerView;

    closed spec fn view(&self) -> EpochManagerView {
        EpochManagerView {
            author: self.author,
            config: self.config,
            epoch: match self.epoch_state {
                Some(state) => Some(state.epoch),
                None => None,
            },
            validators: match self.epoch_state {
                Some(state) => state.verifier@,
                None => Seq::empty(),
            },
            round_manager: self.round_manager_started,
            wrapper: self.wrapper_started,
            buffer_manager: self.buffer_manager_started,
            block_retrieval: self.block_retrieval_started,
            fragment_workers: self.num_network_workers_for_fragment,
            listeners: self.num_network_listeners,
        }
    }
}

impl EpochManager {
    #[verifier::type_invariant]
    spec fn wf(&self) -> bool {
        &&& self.num_network_workers_for_fragment >= 1
        &&& self.num_network_listeners == 0 || self.num_network_listeners
            == self.num_network_workers_for_fragment + 2
    }

    /// The supervisor of the validator `author`, before any epoch has started.
    pub fn new(author: Author, config: ConsensusConfig) -> (m: Self)
        ensures
            m@ == (EpochManagerView {
                author,
                config,
                epoch: None,
                validators: Seq::empty(),
                round_manager: false,
                wrapper: false,
                buffer_manager: false,
                block_retrieval: false,
                fragment_workers: 2,
                listeners: 0,
            }),
    {
        EpochManager {
            author,
            config,
            epoch_state: None,
            round_manager_started: false,
            wrapper_started: false,
            buffer_manager_started: false,
            block_retrieval_started: false,
            num_network_workers_for_fragment: 2,
            num_network_listeners: 0,
        }
    }

    /// The state of the current epoch, once one has started.
    pub fn epoch_state(&self) -> (r: Option<&EpochState>)
        ensures
            r.is_some() == self@.epoch.is_some(),
            r matches Some(state) ==> Some(state.epoch) == self@.epoch && state.verifier@
                == self@.validators,
    {
        self.epoch_state.as_ref()
    }

    /// The current epoch, once one has started.
    pub fn epoch(&self) -> (r: Option<u64>)
        ensures
            r == self@.epoch,
    {
        match &self.epoch_state {
            Some(state) => Some(state.epoch),
            None => None,
        }
    }

    /// Whether no actor of an epoch runs.
    pub fn is_quiescent(&self) -> (b: bool)
        ensures
            b == self@.quiescent(),
            self@.listeners_consistent(),
    {
        proof {
            use_type_invariant(self);
        }
        !self.round_manager_started && !self.wrapper_started && !self.buffer_manager_started
            && !self.block_retrieval_started
    }

    /// Whether this node is a validator of the current epoch.
    fn is_validator(&self) -> (b: bool)
        ensures
            b == is_validator(self@.validators, self@.author),
    {
        match &self.epoch_state {
            Some(state) => state.verifier.get_voting_power(&self.author).is_some(),
            None => false,
        }
    }

    /// Decides what to do about a message of another epoch than the current
    /// one. From an earlier epoch it is dropped where this node is a
    /// validator, which will hear of later epochs anyway, and answered with
    /// the proof of the epoch changes since where it is none. From a later
    /// epoch it makes the node ask for the proof that leads there.
    pub fn process_different_epoch(&self, different_epoch: u64) -> (r: Result<
        EpochAction,
        EpochManagerError,
    >)
        ensures
            r == (match self@.epoch {
                Some(local_epoch) => spec_different_epoch(
                    local_epoch,
                    is_validator(self@.validators, self@.author),
                    different_epoch,
                ),
                None => Err(EpochManagerError::NotStarted),
            }),
    {
        let local_epoch = match self.epoch() {
            Some(e) => e,
            None => { return Err(EpochManagerError::NotStarted); },
        };
        if different_epoch < local_epoch {
            if self.is_validator() {
                Ok(EpochAction::Discard)
            } else {
                Ok(
                    EpochAction::SendEpochProof(
                        EpochRetrievalRequest {
                            start_epoch: different_epoch,
                            end_epoch: local_epoch,
                        },
                    ),
                )
            }
        } else if different_epoch > local_epoch {
            Ok(
                EpochAction::RequestEpochProof(
                    EpochRetrievalRequest { start_epoch: local_epoch, end_epoch: different_epoch },
                ),
            )
        } else {
            Err(EpochManagerError::SameEpoch)
        }
    }

    /// Decides what to do about a message from the network: a message of the
    /// current epoch goes on to verification, one of another epoch starts the
    /// exchange of epoch-change proofs, a proof for the current epoch starts
    /// the epoch change, and a request for proofs is answered if it ends no
    /// later than the current epoch.
    pub fn check_epoch(&self, msg: &ConsensusMsg) -> (r: Result<EpochAction, EpochManagerError>)
        ensures
            r == (match self@.epoch {
                Some(local_epoch) => spec_check_epoch(
                    local_epoch,
                    is_validator(self@.validators, self@.author),
                    *msg,
                ),
                None => Err(EpochManagerError::NotStarted),
            }),
    {
        let local_epoch = match self.epoch() {
            Some(e) => e,
            None => { return Err(EpochManagerError::NotStarted); },
        };
        match msg {
            ConsensusMsg::EpochChangeProof(proof_epoch) => match proof_epoch {
                None => Err(EpochManagerError::InvalidEpochChangeProof),
                Some(msg_epoch) => {
                    if *msg_epoch == local_epoch {
                        Ok(EpochAction::InitiateNewEpoch)
                    } else {
                        Err(
                            EpochManagerError::UnexpectedEpochProof {
                                msg_epoch: *msg_epoch,
                                local_epoch,
                            },
                        )
                    }
                },
            },
            ConsensusMsg::EpochRetrievalRequest(request) => {
                if request.end_epoch <= local_epoch {
                    Ok(EpochAction::SendEpochProof(*request))
                } else {
                    Err(EpochManagerError::EpochRetrievalBeyondLocal)
                }
            },
            _ => match msg.unverified_event() {
                Some(event) => {
                    if event.epoch() == local_epoch {
                        Ok(EpochAction::Verify(event))
                    } else {
                        self.process_different_epoch(event.epoch())
                    }
                },
                None => Err(EpochManagerError::UnexpectedMessage),
            },
        }
    }

    /// The route of an event to the round manager.
    pub fn forward_to_round_manager(&self, peer_id: Author, event: &VerifiedEvent) -> (r: Result<
        Route,
        EpochManagerError,
    >)
        ensures
            r == (if self@.round_manager {
                Ok(Route::RoundManager(peer_id, spec_kind(*event)))
            } else {
                Err(EpochManagerError::RoundManagerNotStarted)
            }),
    {
        if self.round_manager_started {
            Ok(Route::RoundManager(peer_id, event.kind()))
        } else {
            Err(EpochManagerError::RoundManagerNotStarted)
        }
    }

    /// Decides which actor takes a verified event that came from `peer_id`.
    pub fn process_event(&self, peer_id: AccountAddress, event: &VerifiedEvent) -> (r: Result<
        Route,
        EpochManagerError,
    >)
        ensures
            r == spec_route(self@, peer_id, *event),
            r matches Ok(Route::NetworkListener(index)) ==> index < self@.listeners,
    {
        proof {
            use_type_invariant(self);
        }
        match event {
            VerifiedEvent::ProofOfStoreBroadcast => {
                if self.wrapper_started {
                    Ok(Route::QuorumStoreWrapper)
                } else {
                    Err(EpochManagerError::WrapperNotStarted)
                }
            },
            VerifiedEvent::Batch => {
                if self.num_network_listeners > 0 {
                    Ok(Route::NetworkListener(0))
                } else {
                    Err(EpochManagerError::ListenerNotStarted)
                }
            },
            VerifiedEvent::SignedDigest => {
                if self.num_network_listeners > 1 {
                    Ok(Route::NetworkListener(1))
                } else {
                    Err(EpochManagerError::ListenerNotStarted)
                }
            },
            VerifiedEvent::Fragment => {
                if self.num_network_listeners > 0 {
                    let index = (peer_id.first_byte() as usize)
                        % self.num_network_workers_for_fragment + 2;
                    Ok(Route::NetworkListener(index))
                } else {
                    Err(EpochManagerError::ListenerNotStarted)
                }
            },
            VerifiedEvent::CommitVote | VerifiedEvent::CommitDecision => {
                if self.buffer_manager_started {
                    Ok(Route::BufferManager)
                } else {
                    Err(EpochManagerError::CommitPhaseNotStarted)
                }
            },
            _ => self.forward_to_round_manager(peer_id, event),
        }
    }

    /// Decides whether a block-retrieval request can be handed on: it can
    /// while the block-retrieval task of an epoch runs.
    pub fn process_block_retrieval(&self) -> (r: Result<(), EpochManagerError>)
        ensures
            r == (if self@.block_retrieval {
                Ok(())
            } else {
                Err(EpochManagerError::RoundManagerNotStarted)
            }),
    {
        if self.block_retrieval_started {
            Ok(())
        } else {
            Err(EpochManagerError::RoundManagerNotStarted)
        }
    }

    /// The route of the node's own timeout of `round`: to the round manager,
    /// as an event of the node itself.
    pub fn process_local_timeout(&self, round: Round) -> (r: Result<Route, EpochManagerError>)
        ensures
            r == (if self@.round_manager {
                Ok(Route::RoundManager(self@.author, EventKind::LocalTimeout))
            } else {
                Err(EpochManagerError::RoundManagerNotStarted)
            }),
    {
        self.forward_to_round_manager(self.author, &VerifiedEvent::LocalTimeout(round))
    }

    /// Stops the actors of the current epoch. The steps that come back are to
    /// be taken in their order, which releases what the round manager holds
    /// before anything else: first the round manager, then the quorum-store
    /// wrapper, then the buffer manager, and the block-retrieval task last.
    /// Afterwards the supervisor counts no actor as running.
    pub fn shutdown_current_processor(&mut self) -> (steps: Vec<SupervisorStep>)
        ensures
            steps@ == spec_shutdown_steps(old(self)@),
            final(self)@ == stopped(old(self)@),
            final(self)@.quiescent(),
    {
        proof {
            use_type_invariant(&*self);
        }
        let mut steps: Vec<SupervisorStep> = Vec::new();
        if self.round_manager_started {
            steps.push(SupervisorStep::CloseRoundManager);
        }
        self.round_manager_started = false;
        if self.wrapper_started {
            steps.push(SupervisorStep::StopQuorumStoreWrapper);
        }
        self.wrapper_started = false;
        if self.buffer_manager_started {
            steps.push(SupervisorStep::StopBufferManager);
        }
        self.buffer_manager_started = false;
        if self.block_retrieval_started {
            steps.push(SupervisorStep::DropBlockRetrieval);
        }
        self.block_retrieval_started = false;
        assert(steps@ =~= spec_shutdown_steps(old(self)@));
        steps
    }

    /// Ends the current epoch on a proof of its end. `proof_verifies` says
    /// whether the proof holds against the validator set of the current
    /// epoch. If it does, the actors are stopped in order, then the ledger is
    /// brought to the end of the epoch, then the next reconfiguration is
    /// awaited; `start_new_epoch` takes it from there.
    pub fn initiate_new_epoch(&mut self, proof_verifies: bool) -> (r: Result<
        Vec<SupervisorStep>,
        EpochManagerError,
    >)
        ensures
            old(self)@.epoch.is_none() ==> r == Err::<Vec<SupervisorStep>, EpochManagerError>(
                EpochManagerError::NotStarted,
            ) && final(self)@ == old(self)@,
            old(self)@.epoch.is_some() && !proof_verifies ==> r == Err::<
                Vec<SupervisorStep>,
                EpochManagerError,
            >(EpochManagerError::InvalidEpochChangeProof) && final(self)@ == old(self)@,
            old(self)@.epoch.is_some() && proof_verifies ==> {
                &&& r matches Ok(steps)
                &&& steps@ == spec_shutdown_steps(old(self)@) + seq![
                    SupervisorStep::SyncToNewEpoch,
                    SupervisorStep::AwaitReconfigNotification,
                ]
                &&& final(self)@ == stopped(old(self)@)
            },
    {
        if self.epoch_state.is_none() {
            return Err(EpochManagerError::NotStarted);
        }
        if !proof_verifies {
            return Err(EpochManagerError::InvalidEpochChangeProof);
        }
        let mut steps = self.shutdown_current_processor();
        steps.push(SupervisorStep::SyncToNewEpoch);
        steps.push(SupervisorStep::AwaitReconfigNotification);
        assert(steps@ =~= spec_shutdown_steps(old(self)@) + seq![
            SupervisorStep::SyncToNewEpoch,
            SupervisorStep::AwaitReconfigNotification,
        ]);
        Ok(steps)
    }

    /// The source of payload where the quorum store is not in use.
    fn spawn_direct_mempool_quorum_store(&self) -> (s: PayloadSource)
        ensures
            s == (PayloadSource::DirectMempool {
                mempool_txn_pull_timeout_ms: self@.config.mempool_txn_pull_timeout_ms,
            }),
    {
        PayloadSource::DirectMempool {
            mempool_txn_pull_timeout_ms: self.config.mempool_txn_pull_timeout_ms,
        }
    }

    /// Sets up the network listeners of the quorum store of `epoch` and finds
    /// the round from which it starts.
    fn spawn_quorum_store(&mut self, epoch: u64, workers: usize, latest: LedgerCommit) -> (r: (
        usize,
        Round,
    ))
        requires
            1 <= workers <= usize::MAX - 2,
        ensures
            r.0 == workers + 2,
            r.1 == spec_last_committed_round(epoch, latest),
            final(self)@ == (EpochManagerView {
                fragment_workers: workers,
                listeners: (workers + 2) as usize,
                ..old(self)@
            }),
    {
        proof {
            use_type_invariant(&*self);
        }
        self.num_network_listeners = 0;
        self.num_network_workers_for_fragment = workers;
        self.num_network_listeners = workers + 2;
        let last_committed_round = if latest.epoch == epoch {
            latest.round
        } else {
            0
        };
        (self.num_network_listeners, last_committed_round)
    }

    /// Sets up the quorum-store wrapper among `num_validators` validators.
    fn spawn_quorum_store_wrapper(
        &mut self,
        qs_config: &QuorumStoreConfig,
        num_validators: usize,
    ) -> (w: WrapperSetup)
        requires
            qs_config.back_pressure_factor * num_validators <= usize::MAX,
        ensures
            w == spec_wrapper_setup(old(self)@.config, *qs_config, num_validators as nat),
            final(self)@ == (EpochManagerView { wrapper: true, ..old(self)@ }),
    {
        proof {
            use_type_invariant(&*self);
        }
        self.wrapper_started = true;
        WrapperSetup {
            mempool_txn_pull_timeout_ms: self.config.mempool_txn_pull_timeout_ms,
            mempool_txn_pull_max_count: qs_config.mempool_txn_pull_max_count,
            mempool_txn_pull_max_bytes: qs_config.mempool_txn_pull_max_bytes,
            max_batch_bytes: qs_config.max_batch_bytes as u64,
            batch_expiry_round_gap_when_init: qs_config.batch_expiry_round_gap_when_init,
            batch_expiry_round_gap_behind_latest_certified: qs_config.batch_expiry_round_gap_behind_latest_certified,
            batch_expiry_round_gap_beyond_latest_certified: qs_config.batch_expiry_round_gap_beyond_latest_certified,
            end_batch_ms: qs_config.end_batch_ms,
            back_pressure_limit: qs_config.back_pressure_factor * num_validators,
        }
    }

    /// Counts the block-retrieval task as running.
    fn spawn_block_retrieval_task(&mut self)
        ensures
            final(self)@ == (EpochManagerView { block_retrieval: true, ..old(self)@ }),
    {
        proof {
            use_type_invariant(&*self);
        }
        self.block_retrieval_started = true;
    }

    /// Counts the buffer manager of the commit pipeline as running.
    fn spawn_decoupled_execution(&mut self)
        ensures
            final(self)@ == (EpochManagerView { buffer_manager: true, ..old(self)@ }),
    {
        proof {
            use_type_invariant(&*self);
        }
        self.buffer_manager_started = true;
    }

    /// Sets up the recovery manager, which takes the place of the round
    /// manager until the node has caught up.
    fn start_recovery_manager(&mut self, ledger_data: LedgerRecoveryData, epoch: u64) -> (s:
        RecoveryManagerSetup)
        ensures
            s == (RecoveryManagerSetup { epoch, committed_round: ledger_data.committed_round() }),
            final(self)@ == (EpochManagerView { round_manager: true, ..old(self)@ }),
    {
        proof {
            use_type_invariant(&*self);
        }
        self.round_manager_started = true;
        RecoveryManagerSetup { epoch, committed_round: ledger_data.committed_round() }
    }

    /// Sets up the round manager of an epoch and the actors around it: the
    /// source of payload, the commit pipeline where execution is decoupled,
    /// and the block-retrieval task.
    fn start_round_manager(
        &mut self,
        recovery_data: RecoveryData,
        epoch: u64,
        num_validators: usize,
        decoupled_execution: bool,
        proposer_election: ProposerElection,
        latest_commit: Option<LedgerCommit>,
    ) -> (setup: RoundManagerSetup)
        requires
            old(self)@.config.use_quorum_store ==> latest_commit.is_some(),
        ensures
            setup.epoch == epoch,
            setup.last_vote == recovery_data.last_vote,
            setup.proposer_election == proposer_election,
            setup.decoupled_execution == decoupled_execution,
            setup.payload_source == (if old(self)@.config.use_quorum_store {
                PayloadSource::QuorumStore(
                    spec_quorum_store_setup(
                        old(self)@.config,
                        epoch,
                        num_validators as nat,
                        latest_commit.unwrap(),
                    ),
                )
            } else {
                PayloadSource::DirectMempool {
                    mempool_txn_pull_timeout_ms: old(self)@.config.mempool_txn_pull_timeout_ms,
                }
            }),
            final(self)@ == (EpochManagerView {
                round_manager: true,
                wrapper: old(self)@.wrapper || old(self)@.config.use_quorum_store,
                buffer_manager: old(self)@.buffer_manager || decoupled_execution,
                block_retrieval: true,
                fragment_workers: if old(self)@.config.use_quorum_store {
                    spec_fragment_workers(
                        num_validators as nat,
                        spec_quorum_store_config().num_nodes_per_worker_handles,
                    ) as usize
                } else {
                    old(self)@.fragment_workers
                },
                listeners: if old(self)@.config.use_quorum_store {
                    (spec_fragment_workers(
                        num_validators as nat,
                        spec_quorum_store_config().num_nodes_per_worker_handles,
                    ) + 2) as usize
                } else {
                    old(self)@.listeners
                },
                ..old(self)@
            }),
    {
        proof {
            use_type_invariant(&*self);
        }
        let payload_source = if self.config.use_quorum_store {
            let config = quorum_store_config();
            let per_worker = num_validators / config.num_nodes_per_worker_handles;
            let workers = if per_worker >= 1 {
                per_worker
            } else {
                1
            };
            let (num_network_listeners, last_committed_round) = self.spawn_quorum_store(
                epoch,
                workers,
                latest_commit.unwrap(),
            );
            let wrapper = self.spawn_quorum_store_wrapper(&config, num_validators);
            PayloadSource::QuorumStore(
                QuorumStoreSetup { config, num_network_listeners, last_committed_round, wrapper },
            )
        } else {
            self.spawn_direct_mempool_quorum_store()
        };
        if decoupled_execution {
            self.spawn_decoupled_execution();
        }
        self.round_manager_started = true;
        self.spawn_block_retrieval_task();
        RoundManagerSetup {
            epoch,
            last_vote: recovery_data.last_vote,
            proposer_election,
            payload_source,
            decoupled_execution,
        }
    }

    /// Starts the epoch of `epoch_state` and says which actors to spawn for
    /// it: with full recovery data the round manager, its leader election,
    /// its source of payload, the commit pipeline where the chain asks for
    /// decoupled execution, and the block-retrieval task; with the ledger
    /// alone the recovery manager. `latest_commit` is where the ledger stands,
    /// which the quorum store needs, and `history` is what was read for the
    /// leader election. An epoch is started only while no actor of the last
    /// one runs.
    pub fn start_new_epoch(
        &mut self,
        epoch_state: EpochState,
        onchain_config: &OnChainConsensusConfig,
        storage_data: LivenessStorageData,
        latest_commit: Option<LedgerCommit>,
        history: HistoryFetch,
    ) -> (r: Result<EpochStart, EpochManagerError>)
        ensures
            is_epoch_start(
                r,
                old(self)@,
                final(self)@,
                epoch_state.epoch,
                epoch_state.verifier@,
                *onchain_config,
                storage_data,
                latest_commit,
                history,
            ),
            final(self)@.listeners_consistent(),
    {
        proof {
            use_type_invariant(&*self);
        }
        if !self.is_quiescent() {
            return Err(EpochManagerError::ActorsStillRunning);
        }
        let epoch = epoch_state.epoch;
        match storage_data {
            LivenessStorageData::FullRecoveryData(recovery_data) => {
                let election = create_proposer_election(
                    self.author,
                    &epoch_state,
                    onchain_config,
                    history,
                );
                let proposer_election = match election {
                    Ok(e) => e,
                    Err(e) => {
                        return Err(EpochManagerError::Election(e));
                    },
                };
                if self.config.use_quorum_store && latest_commit.is_none() {
                    return Err(EpochManagerError::LatestLedgerInfoMissing);
                }
                let num_validators = epoch_state.verifier.len();
                let decoupled_execution = onchain_config.decoupled_execution();
                self.epoch_state = Some(epoch_state);
                let setup = self.start_round_manager(
                    recovery_data,
                    epoch,
                    num_validators,
                    decoupled_execution,
                    proposer_election,
                    latest_commit,
                );
                Ok(EpochStart::RoundManager(setup))
            },
            LivenessStorageData::PartialRecoveryData(ledger_data) => {
                self.epoch_state = Some(epoch_state);
                let setup = self.start_recovery_manager(ledger_data, epoch);
                Ok(EpochStart::RecoveryManager(setup))
            },
        }
    }
}

/// At any time at most one round manager, one quorum-store wrapper and one
/// buffer manager run, and an epoch start that spawns actors finds none
/// running: the actors of one epoch are gone before those of the next come.
pub proof fn lemma_one_set_of_actors(
    r: Result<EpochStart, EpochManagerError>,
    before: EpochManagerView,
    after: EpochManagerView,
    epoch: u64,
    validators: Seq<ValidatorConsensusInfo>,
    onchain_config: OnChainConsensusConfig,
    storage_data: LivenessStorageData,
    latest_commit: Option<LedgerCommit>,
    history: HistoryFetch,
)
    requires
        is_epoch_start(
            r,
            before,
            after,
            epoch,
            validators,
            onchain_config,
            storage_data,
            latest_commit,
            history,
        ),
    ensures
        before.census().0 <= 1 && before.census().1 <= 1 && before.census().2 <= 1,
        after.census().0 <= 1 && after.census().1 <= 1 && after.census().2 <= 1,
        r.is_ok() ==> before.census() == (0nat, 0nat, 0nat),
        r.is_err() ==> after.census() == before.census(),
        spec_shutdown_steps(before).len() == 0 <==> before.quiescent(),
        stopped(before).census() == (0nat, 0nat, 0nat),
        r matches Ok(EpochStart::RoundManager(_)) ==> after.census() == (
            1nat,
            if before.config.use_quorum_store { 1nat } else { 0nat },
            if onchain_config.decoupled_execution { 1nat } else { 0nat },
        ),
        r matches Ok(EpochStart::RecoveryManager(_)) ==> after.census() == (1nat, 0nat, 0nat),
{
}

} // verus!
