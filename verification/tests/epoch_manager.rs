use consensus_core::account_address::AccountAddress;
use consensus_core::epoch_manager::{
    quorum_store_config, ConsensusConfig, EpochAction, EpochManager, EpochManagerError,
    EpochStart, LedgerCommit, LedgerRecoveryData, LivenessStorageData, PayloadSource,
    QuorumStoreSetup, RecoveryData, RecoveryManagerSetup, Route, SupervisorStep, WrapperSetup,
};
use consensus_core::network_interface::{
    ConsensusMsg, EpochRetrievalRequest, EventKind, UnverifiedEvent, VerifiedEvent,
};
use consensus_core::onchain_config::{OnChainConsensusConfig, ProposerElectionType};
use consensus_core::proposer_election::{ElectionError, HistoryFetch, ProposerElection};
use consensus_core::validator_verifier::{EpochState, ValidatorConsensusInfo, ValidatorVerifier};

fn address(last: u8) -> AccountAddress {
    let mut bytes = [0u8; 32];
    bytes[31] = last;
    AccountAddress::new(bytes)
}

fn peer_starting_with(first: u8) -> AccountAddress {
    let mut bytes = [0u8; 32];
    bytes[0] = first;
    AccountAddress::new(bytes)
}

fn node_config(use_quorum_store: bool) -> ConsensusConfig {
    ConsensusConfig {
        channel_size: 30,
        intra_consensus_channel_buffer_size: 10,
        max_pruned_blocks_in_mem: 100,
        max_sending_block_txns: 2500,
        max_sending_block_bytes: 600 * 1024,
        mempool_executed_txn_timeout_ms: 1000,
        mempool_txn_pull_timeout_ms: 1234,
        quorum_store_poll_count: 5,
        quorum_store_pull_timeout_ms: 1000,
        round_initial_timeout_ms: 1500,
        round_timeout_backoff_max_exponent: 6,
        use_quorum_store,
    }
}

fn onchain(decoupled_execution: bool) -> OnChainConsensusConfig {
    OnChainConsensusConfig {
        decoupled_execution,
        back_pressure_limit: 10,
        exclude_round: 20,
        max_failed_authors_to_store: 10,
        proposer_election_type: ProposerElectionType::RotatingProposer(1),
    }
}

fn epoch_state(epoch: u64, validators: &[u8]) -> EpochState {
    let validators = validators
        .iter()
        .map(|a| ValidatorConsensusInfo { address: address(*a), voting_power: 1 })
        .collect();
    EpochState { epoch, verifier: ValidatorVerifier::new(validators).unwrap() }
}

fn full() -> LivenessStorageData {
    LivenessStorageData::FullRecoveryData(RecoveryData { root_round: 0, last_vote: Some(6) })
}

fn running(me: u8, epoch: u64, validators: &[u8], use_quorum_store: bool) -> EpochManager {
    let mut m = EpochManager::new(address(me), node_config(use_quorum_store));
    let r = m.start_new_epoch(
        epoch_state(epoch, validators),
        &onchain(true),
        full(),
        Some(LedgerCommit { epoch, round: 7 }),
        HistoryFetch::Unavailable,
    );
    assert!(r.is_ok());
    m
}

fn request(start_epoch: u64, end_epoch: u64) -> EpochRetrievalRequest {
    EpochRetrievalRequest { start_epoch, end_epoch }
}

#[test]
fn supervisor_knows_no_epoch_before_the_first_has_started() {
    let m = EpochManager::new(address(1), node_config(true));
    assert_eq!(m.epoch(), None);
    assert!(m.epoch_state().is_none());
    assert!(m.is_quiescent());
    assert_eq!(m.check_epoch(&ConsensusMsg::VoteMsg(1)), Err(EpochManagerError::NotStarted));
    assert_eq!(m.process_different_epoch(1), Err(EpochManagerError::NotStarted));
    assert_eq!(
        m.process_event(address(2), &VerifiedEvent::VoteMsg),
        Err(EpochManagerError::RoundManagerNotStarted)
    );
    assert_eq!(m.process_local_timeout(3), Err(EpochManagerError::RoundManagerNotStarted));
    assert_eq!(m.process_block_retrieval(), Err(EpochManagerError::RoundManagerNotStarted));
    assert_eq!(
        m.process_event(address(2), &VerifiedEvent::Batch),
        Err(EpochManagerError::ListenerNotStarted)
    );
}

#[test]
fn message_of_the_current_epoch_goes_on_to_verification() {
    let m = running(1, 5, &[1, 2, 3, 4], true);
    let cases = [
        (ConsensusMsg::ProposalMsg(5), EventKind::ProposalMsg),
        (ConsensusMsg::SyncInfo(5), EventKind::SyncInfo),
        (ConsensusMsg::VoteMsg(5), EventKind::VoteMsg),
        (ConsensusMsg::CommitVoteMsg(5), EventKind::CommitVote),
        (ConsensusMsg::CommitDecisionMsg(5), EventKind::CommitDecision),
        (ConsensusMsg::SignedDigestMsg(5), EventKind::SignedDigest),
        (ConsensusMsg::FragmentMsg(5), EventKind::Fragment),
        (ConsensusMsg::BatchMsg(5), EventKind::Batch),
        (ConsensusMsg::ProofOfStoreBroadcastMsg(5), EventKind::ProofOfStoreBroadcast),
    ];
    for (msg, kind) in cases {
        assert_eq!(
            m.check_epoch(&msg),
            Ok(EpochAction::Verify(UnverifiedEvent { kind, epoch: 5 }))
        );
        assert_eq!(msg.unverified_event(), Some(UnverifiedEvent { kind, epoch: 5 }));
    }
}

#[test]
fn message_of_an_earlier_epoch_is_dropped_by_a_validator_and_answered_by_others() {
    let validator = running(1, 5, &[1, 2, 3, 4], true);
    assert_eq!(validator.check_epoch(&ConsensusMsg::VoteMsg(3)), Ok(EpochAction::Discard));
    assert_eq!(validator.process_different_epoch(4), Ok(EpochAction::Discard));
    let outsider = running(9, 5, &[1, 2, 3, 4], true);
    assert_eq!(
        outsider.check_epoch(&ConsensusMsg::VoteMsg(3)),
        Ok(EpochAction::SendEpochProof(request(3, 5)))
    );
    assert_eq!(
        outsider.process_different_epoch(0),
        Ok(EpochAction::SendEpochProof(request(0, 5)))
    );
}

#[test]
fn message_of_a_later_epoch_makes_the_node_ask_for_the_proof() {
    for me in [1u8, 9] {
        let m = running(me, 5, &[1, 2, 3, 4], true);
        assert_eq!(
            m.check_epoch(&ConsensusMsg::ProposalMsg(8)),
            Ok(EpochAction::RequestEpochProof(request(5, 8)))
        );
        assert_eq!(
            m.process_different_epoch(6),
            Ok(EpochAction::RequestEpochProof(request(5, 6)))
        );
        assert_eq!(m.process_different_epoch(5), Err(EpochManagerError::SameEpoch));
    }
}

#[test]
fn epoch_change_proof_must_be_for_the_current_epoch() {
    let m = running(1, 5, &[1, 2, 3, 4], true);
    assert_eq!(
        m.check_epoch(&ConsensusMsg::EpochChangeProof(Some(5))),
        Ok(EpochAction::InitiateNewEpoch)
    );
    assert_eq!(
        m.check_epoch(&ConsensusMsg::EpochChangeProof(Some(4))),
        Err(EpochManagerError::UnexpectedEpochProof { msg_epoch: 4, local_epoch: 5 })
    );
    assert_eq!(
        m.check_epoch(&ConsensusMsg::EpochChangeProof(Some(6))),
        Err(EpochManagerError::UnexpectedEpochProof { msg_epoch: 6, local_epoch: 5 })
    );
    assert_eq!(
        m.check_epoch(&ConsensusMsg::EpochChangeProof(None)),
        Err(EpochManagerError::InvalidEpochChangeProof)
    );
}

#[test]
fn epoch_retrieval_beyond_the_current_epoch_is_rejected() {
    let m = running(1, 5, &[1, 2, 3, 4], true);
    assert_eq!(
        m.check_epoch(&ConsensusMsg::EpochRetrievalRequest(request(2, 6))),
        Err(EpochManagerError::EpochRetrievalBeyondLocal)
    );
    assert_eq!(
        m.check_epoch(&ConsensusMsg::EpochRetrievalRequest(request(2, u64::MAX))),
        Err(EpochManagerError::EpochRetrievalBeyondLocal)
    );
    assert_eq!(
        m.check_epoch(&ConsensusMsg::EpochRetrievalRequest(request(2, 5))),
        Ok(EpochAction::SendEpochProof(request(2, 5)))
    );
    assert_eq!(
        m.check_epoch(&ConsensusMsg::EpochRetrievalRequest(request(0, 1))),
        Ok(EpochAction::SendEpochProof(request(0, 1)))
    );
}

#[test]
fn messages_that_the_supervisor_does_not_take_are_errors() {
    let m = running(1, 5, &[1, 2, 3, 4], true);
    assert_eq!(
        m.check_epoch(&ConsensusMsg::BlockRetrievalRequest),
        Err(EpochManagerError::UnexpectedMessage)
    );
    assert_eq!(
        m.check_epoch(&ConsensusMsg::BlockRetrievalResponse),
        Err(EpochManagerError::UnexpectedMessage)
    );
}

#[test]
fn events_are_routed_by_their_kind() {
    // eight validators at two per listener: four listeners share the fragments
    let m = running(1, 5, &[1, 2, 3, 4, 5, 6, 7, 8], true);
    let from = address(2);
    assert_eq!(m.process_event(from, &VerifiedEvent::ProofOfStoreBroadcast), Ok(Route::QuorumStoreWrapper));
    assert_eq!(m.process_event(from, &VerifiedEvent::Batch), Ok(Route::NetworkListener(0)));
    assert_eq!(m.process_event(from, &VerifiedEvent::SignedDigest), Ok(Route::NetworkListener(1)));
    assert_eq!(m.process_event(from, &VerifiedEvent::CommitVote), Ok(Route::BufferManager));
    assert_eq!(m.process_event(from, &VerifiedEvent::CommitDecision), Ok(Route::BufferManager));
    assert_eq!(
        m.process_event(from, &VerifiedEvent::ProposalMsg),
        Ok(Route::RoundManager(from, EventKind::ProposalMsg))
    );
    assert_eq!(
        m.process_event(from, &VerifiedEvent::VoteMsg),
        Ok(Route::RoundManager(from, EventKind::VoteMsg))
    );
    assert_eq!(
        m.process_event(from, &VerifiedEvent::SyncInfo),
        Ok(Route::RoundManager(from, EventKind::SyncInfo))
    );
    assert_eq!(
        m.process_event(from, &VerifiedEvent::LocalTimeout(4)),
        Ok(Route::RoundManager(from, EventKind::LocalTimeout))
    );
    assert_eq!(
        m.forward_to_round_manager(from, &VerifiedEvent::VoteMsg),
        Ok(Route::RoundManager(from, EventKind::VoteMsg))
    );
    assert_eq!(
        m.process_local_timeout(4),
        Ok(Route::RoundManager(address(1), EventKind::LocalTimeout))
    );
    assert_eq!(m.process_block_retrieval(), Ok(()));
    assert_eq!(VerifiedEvent::LocalTimeout(4).kind(), EventKind::LocalTimeout);
    assert_eq!(VerifiedEvent::Shutdown.kind(), EventKind::Shutdown);
}

#[test]
fn fragments_are_spread_over_the_listeners_by_the_first_byte_of_the_peer() {
    let m = running(1, 5, &[1, 2, 3, 4, 5, 6, 7, 8], true);
    for (first, listener) in [(0u8, 2usize), (1, 3), (2, 4), (3, 5), (4, 2), (255, 5), (254, 4)] {
        assert_eq!(
            m.process_event(peer_starting_with(first), &VerifiedEvent::Fragment),
            Ok(Route::NetworkListener(listener))
        );
    }
    // the last byte does not matter
    assert_eq!(m.process_event(address(3), &VerifiedEvent::Fragment), Ok(Route::NetworkListener(2)));
    // a single validator still has one listener for fragments
    let alone = running(1, 5, &[1], true);
    for first in [0u8, 1, 7, 255] {
        assert_eq!(
            alone.process_event(peer_starting_with(first), &VerifiedEvent::Fragment),
            Ok(Route::NetworkListener(2))
        );
    }
}

#[test]
fn quorum_store_events_are_errors_without_a_quorum_store() {
    let m = running(1, 5, &[1, 2, 3, 4], false);
    let from = address(2);
    assert_eq!(
        m.process_event(from, &VerifiedEvent::ProofOfStoreBroadcast),
        Err(EpochManagerError::WrapperNotStarted)
    );
    for event in [VerifiedEvent::Batch, VerifiedEvent::SignedDigest, VerifiedEvent::Fragment] {
        assert_eq!(m.process_event(from, &event), Err(EpochManagerError::ListenerNotStarted));
    }
    assert_eq!(m.process_event(from, &VerifiedEvent::CommitVote), Ok(Route::BufferManager));
}

#[test]
fn commit_events_are_errors_without_decoupled_execution() {
    let mut m = EpochManager::new(address(1), node_config(false));
    let r = m.start_new_epoch(
        epoch_state(5, &[1, 2, 3, 4]),
        &onchain(false),
        full(),
        None,
        HistoryFetch::Unavailable,
    );
    match r {
        Ok(EpochStart::RoundManager(setup)) => {
            assert!(!setup.decoupled_execution);
            assert_eq!(
                setup.payload_source,
                PayloadSource::DirectMempool { mempool_txn_pull_timeout_ms: 1234 }
            );
        }
        other => panic!("unexpected: {:?}", other),
    }
    assert_eq!(
        m.process_event(address(2), &VerifiedEvent::CommitVote),
        Err(EpochManagerError::CommitPhaseNotStarted)
    );
    assert_eq!(
        m.process_event(address(2), &VerifiedEvent::CommitDecision),
        Err(EpochManagerError::CommitPhaseNotStarted)
    );
    assert_eq!(
        m.shutdown_current_processor(),
        vec![SupervisorStep::CloseRoundManager, SupervisorStep::DropBlockRetrieval]
    );
}

#[test]
fn epoch_start_sets_up_the_round_manager_and_its_quorum_store() {
    let mut m = EpochManager::new(address(1), node_config(true));
    let r = m.start_new_epoch(
        epoch_state(5, &[1, 2, 3, 4, 5, 6, 7]),
        &onchain(true),
        full(),
        Some(LedgerCommit { epoch: 5, round: 42 }),
        HistoryFetch::Unavailable,
    );
    let setup = match r {
        Ok(EpochStart::RoundManager(setup)) => setup,
        other => panic!("unexpected: {:?}", other),
    };
    assert_eq!(setup.epoch, 5);
    assert_eq!(setup.last_vote, Some(6));
    assert!(setup.decoupled_execution);
    match &setup.proposer_election {
        ProposerElection::Rotating(p) => assert_eq!(p.get_valid_proposer(8), address(2)),
        other => panic!("unexpected: {:?}", other),
    }
    let config = quorum_store_config();
    assert_eq!(
        setup.payload_source,
        PayloadSource::QuorumStore(QuorumStoreSetup {
            config,
            // seven validators at two per listener make three, and two more
            num_network_listeners: 5,
            last_committed_round: 42,
            wrapper: WrapperSetup {
                mempool_txn_pull_timeout_ms: 1234,
                mempool_txn_pull_max_count: 100,
                mempool_txn_pull_max_bytes: 1_000_000,
                max_batch_bytes: 100_000,
                batch_expiry_round_gap_when_init: 150,
                batch_expiry_round_gap_behind_latest_certified: 50,
                batch_expiry_round_gap_beyond_latest_certified: 300,
                end_batch_ms: 500,
                back_pressure_limit: 7,
            },
        })
    );
    assert_eq!(m.epoch(), Some(5));
    assert_eq!(m.epoch_state().map(|s| s.verifier.len()), Some(7));
    assert!(!m.is_quiescent());
}

#[test]
fn quorum_store_starts_from_round_zero_when_the_ledger_is_in_another_epoch() {
    for (ledger_epoch, expected) in [(4u64, 0u64), (5, 42), (6, 0)] {
        let mut m = EpochManager::new(address(1), node_config(true));
        let r = m.start_new_epoch(
            epoch_state(5, &[1, 2, 3, 4]),
            &onchain(true),
            full(),
            Some(LedgerCommit { epoch: ledger_epoch, round: 42 }),
            HistoryFetch::Unavailable,
        );
        match r {
            Ok(EpochStart::RoundManager(setup)) => match setup.payload_source {
                PayloadSource::QuorumStore(qs) => {
                    assert_eq!(qs.last_committed_round, expected);
                    assert_eq!(qs.num_network_listeners, 4);
                    assert_eq!(qs.wrapper.back_pressure_limit, 4);
                }
                other => panic!("unexpected: {:?}", other),
            },
            other => panic!("unexpected: {:?}", other),
        }
    }
}

#[test]
fn quorum_store_parameters_are_those_of_every_epoch() {
    let c = quorum_store_config();
    assert_eq!(c.channel_size, 100);
    assert_eq!(c.proof_timeout_ms, 10000);
    assert_eq!(c.batch_request_num_peers, 2);
    assert_eq!(c.end_batch_ms, 500);
    assert_eq!(c.max_batch_bytes, 100000);
    assert_eq!(c.batch_request_timeout_ms, 10000);
    assert_eq!(c.batch_expiry_round_gap_when_init, 150);
    assert_eq!(c.batch_expiry_round_gap_behind_latest_certified, 50);
    assert_eq!(c.batch_expiry_round_gap_beyond_latest_certified, 300);
    assert_eq!(c.batch_expiry_grace_rounds, 5);
    assert_eq!(c.memory_quota, 100000000);
    assert_eq!(c.db_quota, 10000000000);
    assert_eq!(c.mempool_txn_pull_max_count, 100);
    assert_eq!(c.mempool_txn_pull_max_bytes, 1000000);
    assert_eq!(c.num_nodes_per_worker_handles, 2);
    assert_eq!(c.back_pressure_factor, 1);
}

#[test]
fn epoch_start_without_full_recovery_sets_up_the_recovery_manager() {
    let mut m = EpochManager::new(address(1), node_config(true));
    let r = m.start_new_epoch(
        epoch_state(5, &[1, 2, 3, 4]),
        &onchain(true),
        LivenessStorageData::PartialRecoveryData(LedgerRecoveryData::new(17)),
        None,
        HistoryFetch::Unavailable,
    );
    match r {
        Ok(EpochStart::RecoveryManager(setup)) => {
            assert_eq!(setup, RecoveryManagerSetup { epoch: 5, committed_round: 17 })
        }
        other => panic!("unexpected: {:?}", other),
    }
    assert_eq!(LedgerRecoveryData::new(17).committed_round(), 17);
    assert_eq!(m.epoch(), Some(5));
    // the recovery manager takes the events of the round manager; nothing else runs
    assert_eq!(
        m.process_event(address(2), &VerifiedEvent::SyncInfo),
        Ok(Route::RoundManager(address(2), EventKind::SyncInfo))
    );
    assert_eq!(m.process_block_retrieval(), Err(EpochManagerError::RoundManagerNotStarted));
    assert_eq!(
        m.process_event(address(2), &VerifiedEvent::Batch),
        Err(EpochManagerError::ListenerNotStarted)
    );
    assert_eq!(m.shutdown_current_processor(), vec![SupervisorStep::CloseRoundManager]);
    assert!(m.is_quiescent());
}

#[test]
fn epoch_start_fails_without_what_it_needs() {
    let mut m = EpochManager::new(address(1), node_config(true));
    let r = m.start_new_epoch(
        epoch_state(5, &[1, 2, 3, 4]),
        &onchain(true),
        full(),
        None,
        HistoryFetch::Unavailable,
    );
    assert_eq!(r.err(), Some(EpochManagerError::LatestLedgerInfoMissing));
    let r = m.start_new_epoch(
        epoch_state(5, &[]),
        &onchain(true),
        full(),
        Some(LedgerCommit { epoch: 5, round: 1 }),
        HistoryFetch::Unavailable,
    );
    assert_eq!(r.err(), Some(EpochManagerError::Election(ElectionError::NoProposers)));
    // nothing was started
    assert_eq!(m.epoch(), None);
    assert!(m.is_quiescent());
    assert_eq!(m.shutdown_current_processor(), vec![]);
}

#[test]
fn at_most_one_set_of_actors_runs() {
    let mut m = running(1, 5, &[1, 2, 3, 4], true);
    // a second start while the first set runs is refused and changes nothing
    let r = m.start_new_epoch(
        epoch_state(6, &[1, 2, 3, 4, 5]),
        &onchain(true),
        full(),
        Some(LedgerCommit { epoch: 6, round: 0 }),
        HistoryFetch::Unavailable,
    );
    assert_eq!(r.err(), Some(EpochManagerError::ActorsStillRunning));
    assert_eq!(m.epoch(), Some(5));
    // each actor is stopped once
    assert_eq!(
        m.shutdown_current_processor(),
        vec![
            SupervisorStep::CloseRoundManager,
            SupervisorStep::StopQuorumStoreWrapper,
            SupervisorStep::StopBufferManager,
            SupervisorStep::DropBlockRetrieval,
        ]
    );
    assert_eq!(m.shutdown_current_processor(), vec![]);
    assert!(m.is_quiescent());
    let r = m.start_new_epoch(
        epoch_state(6, &[1, 2, 3, 4, 5]),
        &onchain(true),
        full(),
        Some(LedgerCommit { epoch: 6, round: 0 }),
        HistoryFetch::Unavailable,
    );
    assert!(r.is_ok());
    assert_eq!(m.epoch(), Some(6));
}

#[test]
fn epoch_change_needs_a_proof_that_verifies() {
    let mut fresh = EpochManager::new(address(1), node_config(true));
    assert_eq!(fresh.initiate_new_epoch(true).err(), Some(EpochManagerError::NotStarted));
    let mut m = running(1, 5, &[1, 2, 3, 4], true);
    assert_eq!(
        m.initiate_new_epoch(false).err(),
        Some(EpochManagerError::InvalidEpochChangeProof)
    );
    // nothing was stopped
    assert!(!m.is_quiescent());
    assert!(m.process_event(address(2), &VerifiedEvent::VoteMsg).is_ok());
}

#[test]
fn epoch_change_in_the_middle_of_a_round() {
    // the node runs epoch 5 and is at round 7 when the proof that epoch 5 ended arrives
    let mut m = running(1, 5, &[1, 2, 3, 4], true);
    assert_eq!(
        m.process_local_timeout(7),
        Ok(Route::RoundManager(address(1), EventKind::LocalTimeout))
    );
    assert_eq!(
        m.check_epoch(&ConsensusMsg::EpochChangeProof(Some(5))),
        Ok(EpochAction::InitiateNewEpoch)
    );
    // the actors are drained in order, then the ledger is synced, then the next epoch is awaited
    assert_eq!(
        m.initiate_new_epoch(true),
        Ok(vec![
            SupervisorStep::CloseRoundManager,
            SupervisorStep::StopQuorumStoreWrapper,
            SupervisorStep::StopBufferManager,
            SupervisorStep::DropBlockRetrieval,
            SupervisorStep::SyncToNewEpoch,
            SupervisorStep::AwaitReconfigNotification,
        ])
    );
    assert!(m.is_quiescent());
    assert_eq!(
        m.process_event(address(2), &VerifiedEvent::VoteMsg),
        Err(EpochManagerError::RoundManagerNotStarted)
    );
    // the new validator set is installed with the reconfiguration
    let r = m.start_new_epoch(
        epoch_state(6, &[2, 3, 4, 5, 6, 7]),
        &onchain(true),
        LivenessStorageData::FullRecoveryData(RecoveryData { root_round: 0, last_vote: None }),
        Some(LedgerCommit { epoch: 5, round: 7 }),
        HistoryFetch::Unavailable,
    );
    match r {
        Ok(EpochStart::RoundManager(setup)) => {
            assert_eq!(setup.epoch, 6);
            assert_eq!(setup.last_vote, None);
            match setup.payload_source {
                PayloadSource::QuorumStore(qs) => {
                    assert_eq!(qs.last_committed_round, 0);
                    assert_eq!(qs.num_network_listeners, 5);
                    assert_eq!(qs.wrapper.back_pressure_limit, 6);
                }
                other => panic!("unexpected: {:?}", other),
            }
        }
        other => panic!("unexpected: {:?}", other),
    }
    assert_eq!(m.epoch(), Some(6));
    // the node is no validator of epoch 6: it answers messages of epoch 5 with the proof
    assert_eq!(
        m.check_epoch(&ConsensusMsg::VoteMsg(5)),
        Ok(EpochAction::SendEpochProof(request(5, 6)))
    );
    assert_eq!(
        m.check_epoch(&ConsensusMsg::VoteMsg(6)),
        Ok(EpochAction::Verify(UnverifiedEvent { kind: EventKind::VoteMsg, epoch: 6 }))
    );
    assert_eq!(
        m.process_event(peer_starting_with(5), &VerifiedEvent::Fragment),
        Ok(Route::NetworkListener(4))
    );
}
