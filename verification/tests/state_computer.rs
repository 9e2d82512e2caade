use consensus_core::account_address::AccountAddress;
use consensus_core::data_manager::{DataError, Payload};
use consensus_core::logical_time::LogicalTime;
use consensus_core::quorum_store::proof_builder::ProofOfStore;
use consensus_core::quorum_store::types::{HashValue, SerializedTransaction, SignedDigestInfo};
use consensus_core::state_computer::{
    BlockData, BlockSummary, CommitNotification, ComputeError, ComputeProgress, ComputeStep, ExecutionProxy,
    SyncError, SyncStep,
};
use consensus_core::validator_verifier::{EpochState, ValidatorConsensusInfo, ValidatorVerifier};

fn address(last: u8) -> AccountAddress {
    let mut bytes = [0u8; 32];
    bytes[31] = last;
    AccountAddress::new(bytes)
}

fn block(epoch: u64, round: u64, has_payload: bool) -> BlockSummary {
    BlockSummary { epoch, round, has_payload }
}

#[test]
fn proxy_takes_over_the_validators_of_each_epoch() {
    let mut p = ExecutionProxy::new();
    assert!(p.validators().is_empty());
    let set = |addresses: &[u8]| EpochState {
        epoch: 1,
        verifier: ValidatorVerifier::new(
            addresses
                .iter()
                .map(|a| ValidatorConsensusInfo { address: address(*a), voting_power: 1 })
                .collect(),
        )
        .unwrap(),
    };
    p.new_epoch(&set(&[3, 1, 2]));
    assert_eq!(p.validators(), &vec![address(3), address(1), address(2)]);
    p.new_epoch(&set(&[9]));
    assert_eq!(p.validators(), &vec![address(9)]);
}

#[test]
fn commit_reports_the_payloads_in_order_and_the_latest_round() {
    let p = ExecutionProxy::new();
    let plan = p.commit(&vec![
        block(3, 7, true),
        block(3, 8, false),
        block(3, 9, true),
        block(3, 10, true),
    ]);
    assert_eq!(plan.blocks_with_payload, vec![0, 2, 3]);
    assert_eq!(plan.notification, Some(CommitNotification { epoch: 3, round: 10 }));
}

#[test]
fn commit_of_nothing_reports_nothing() {
    let p = ExecutionProxy::new();
    let plan = p.commit(&vec![]);
    assert_eq!(plan.blocks_with_payload, Vec::<usize>::new());
    assert_eq!(plan.notification, None);
    let plan = p.commit(&vec![block(0, 0, false)]);
    assert_eq!(plan.blocks_with_payload, Vec::<usize>::new());
    assert_eq!(plan.notification, Some(CommitNotification { epoch: 0, round: 0 }));
}

#[test]
fn commit_takes_the_latest_epoch_and_the_latest_round_each_by_itself() {
    let p = ExecutionProxy::new();
    let plan = p.commit(&vec![block(3, 90, false), block(4, 1, true), block(4, 2, false)]);
    assert_eq!(plan.blocks_with_payload, vec![1]);
    assert_eq!(plan.notification, Some(CommitNotification { epoch: 4, round: 90 }));
}

#[test]
fn commit_of_the_same_blocks_reports_the_same() {
    let p = ExecutionProxy::new();
    let blocks: Vec<BlockSummary> = (1..=10).map(|r| block(2, r, r % 3 != 0)).collect();
    let first = p.commit(&blocks);
    let second = p.commit(&blocks);
    assert_eq!(first.blocks_with_payload, second.blocks_with_payload);
    assert_eq!(first.notification, second.notification);
    assert_eq!(first.blocks_with_payload, vec![0, 1, 3, 4, 6, 7, 9]);
    assert_eq!(first.notification, Some(CommitNotification { epoch: 2, round: 10 }));
}

#[test]
fn sync_proceeds_in_four_steps() {
    let p = ExecutionProxy::new();
    assert_eq!(
        p.sync_to(6, 70),
        vec![
            SyncStep::FinishExecutor,
            SyncStep::NotifyCommit(CommitNotification { epoch: 6, round: 70 }),
            SyncStep::SyncToTarget,
            SyncStep::ResetExecutor,
        ]
    );
}

#[test]
fn failed_reset_is_reported_before_a_failed_sync() {
    assert_eq!(ExecutionProxy::sync_result(true, true), Ok(()));
    assert_eq!(ExecutionProxy::sync_result(false, true), Err(SyncError::SyncFailed));
    assert_eq!(ExecutionProxy::sync_result(true, false), Err(SyncError::ResetFailed));
    assert_eq!(ExecutionProxy::sync_result(false, false), Err(SyncError::ResetFailed));
}

#[test]
fn block_is_computed_step_by_step() {
    let at = |data, executed, notified| {
        ExecutionProxy::compute(&ComputeProgress { data, executed, notified })
    };
    assert_eq!(at(None, None, None), ComputeStep::FetchData);
    assert_eq!(at(Some(true), None, None), ComputeStep::Execute);
    assert_eq!(at(Some(true), Some(true), None), ComputeStep::NotifyFailedTransactions);
    assert_eq!(at(Some(true), Some(true), Some(true)), ComputeStep::Done);
    // a mempool that could not be told does not fail the block
    assert_eq!(at(Some(true), Some(true), Some(false)), ComputeStep::Done);
    // without its transactions a block is not executed
    assert_eq!(at(Some(false), None, None), ComputeStep::Failed(ComputeError::DataUnavailable));
    assert_eq!(
        at(Some(false), Some(true), Some(true)),
        ComputeStep::Failed(ComputeError::DataUnavailable)
    );
    // what the executor did not take is not reported
    assert_eq!(
        at(Some(true), Some(false), None),
        ComputeStep::Failed(ComputeError::ExecutionFailed)
    );
}

fn proof_at(round: u64) -> ProofOfStore {
    let mut bytes = [0u8; 32];
    bytes[31] = round as u8;
    ProofOfStore {
        info: SignedDigestInfo::new(HashValue::new(bytes), LogicalTime::new(3, round), 1, 1),
        signers: vec![address(1), address(2), address(3)],
    }
}

fn one_txn(fill: u8) -> Vec<SerializedTransaction> {
    vec![SerializedTransaction::from_bytes(vec![fill; 2])]
}

#[test]
fn block_with_an_expired_proof_gets_no_transactions() {
    let payload = || Some(Payload::InQuorumStore(vec![proof_at(10), proof_at(12)]));
    let batches = || vec![one_txn(1), one_txn(2)];
    let data = |round: u64| {
        ExecutionProxy::get_data(&block(3, round, true), payload(), batches())
            .map(|t| t.iter().map(|x| x.bytes().clone()).collect::<Vec<_>>())
    };
    assert_eq!(data(9), Ok(vec![vec![1u8; 2], vec![2u8; 2]]));
    assert_eq!(data(10), Ok(vec![vec![1u8; 2], vec![2u8; 2]]));
    assert_eq!(data(11), Err(DataError::ExpiredProof));
    assert_eq!(data(13), Err(DataError::ExpiredProof));
    // a later epoch is past every round of epoch 3
    assert_eq!(
        ExecutionProxy::get_data(&block(4, 0, true), payload(), batches()).err(),
        Some(DataError::ExpiredProof)
    );
    // an expired proof is turned down before the batches are counted
    assert_eq!(
        ExecutionProxy::get_data(&block(3, 11, true), payload(), vec![]).err(),
        Some(DataError::ExpiredProof)
    );
    assert_eq!(
        ExecutionProxy::get_data(&block(3, 10, true), payload(), vec![]).err(),
        Some(DataError::BatchCountMismatch)
    );
}

#[test]
fn block_without_proofs_gets_its_own_transactions() {
    assert_eq!(
        ExecutionProxy::get_data(&block(3, 1, false), None, vec![]).map(|t| t.len()),
        Ok(0)
    );
    assert_eq!(
        ExecutionProxy::get_data(&block(3, 1, true), Some(Payload::Empty), vec![]).map(|t| t.len()),
        Ok(0)
    );
    assert_eq!(
        ExecutionProxy::get_data(
            &block(3, 1, true),
            Some(Payload::DirectMempool(one_txn(7))),
            vec![]
        )
        .map(|t| t.iter().map(|x| x.bytes().clone()).collect::<Vec<_>>()),
        Ok(vec![vec![7u8; 2]])
    );
}

#[test]
fn run_with_an_expired_proof_is_not_committed() {
    let by_proof = |round: u64| BlockData {
        block: block(3, round, true),
        payload: Some(Payload::InQuorumStore(vec![proof_at(10)])),
        batches: vec![one_txn(round as u8)],
    };
    let inline = |round: u64| BlockData {
        block: block(3, round, true),
        payload: Some(Payload::DirectMempool(one_txn(round as u8))),
        batches: vec![],
    };
    let empty = |round: u64| BlockData { block: block(3, round, false), payload: None, batches: vec![] };
    let bytes = |r: Result<Vec<SerializedTransaction>, DataError>| {
        r.map(|t| t.iter().map(|x| x.bytes().clone()).collect::<Vec<_>>())
    };
    // the transactions come block after block
    assert_eq!(
        bytes(ExecutionProxy::commit_data(vec![by_proof(8), empty(9), inline(10), by_proof(10)])),
        Ok(vec![vec![8u8; 2], vec![10u8; 2], vec![10u8; 2]])
    );
    // a block at round 11 refers to a batch that expired at round 10
    assert_eq!(
        bytes(ExecutionProxy::commit_data(vec![by_proof(9), by_proof(11), inline(12)])),
        Err(DataError::ExpiredProof)
    );
    assert_eq!(bytes(ExecutionProxy::commit_data(vec![by_proof(11)])), Err(DataError::ExpiredProof));
    // the first block that fails gives the reason
    let mut short = by_proof(9);
    short.batches = vec![];
    assert_eq!(
        bytes(ExecutionProxy::commit_data(vec![inline(8), short, by_proof(11)])),
        Err(DataError::BatchCountMismatch)
    );
    assert_eq!(bytes(ExecutionProxy::commit_data(vec![])), Ok(vec![]));
}
