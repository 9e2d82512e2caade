//! The bookkeeping of the execution proxy: which validators an epoch has,
//! what a commit of a run of blocks reports, and how a sync to a ledger info
//! proceeds.

use crate::account_address::AccountAddress;
use crate::data_manager::{batches_view, joined, live_at, DataError, Payload};
use crate::logical_time::{LogicalTime, Round};
use crate::quorum_store::types::{payload_view, SerializedTransaction};
use crate::validator_verifier::{addresses_of, EpochState};
use vstd::prelude::*;

verus! {

/// What a commit reads of an executed block.
#[derive(Clone, Copy, Debug, PartialEq, Eq, Structural)]
pub struct BlockSummary {
    pub epoch: u64,
    pub round: Round,
    /// Whether the block carries a payload.
    pub has_payload: bool,
}

/// The notification that follows a commit: the latest epoch and the latest
/// round among the blocks committed.
#[derive(Clone, Copy, Debug, PartialEq, Eq, Structural)]
pub struct CommitNotification {
    pub epoch: u64,
    pub round: Round,
}

/// What a commit of a run of blocks reports.
#[derive(Debug)]
pub struct CommitPlan {
    /// The positions of the blocks whose payloads are reported, in the order
    /// of the blocks.
    pub blocks_with_payload: Vec<usize>,
    /// The notification to send after the commit; none for an empty run.
    pub notification: Option<CommitNotification>,
}

/// The largest epoch among `blocks`, 0 if there is none.
pub open spec fn latest_epoch(blocks: Seq<BlockSummary>) -> u64
    decreases blocks.len(),
{
    if blocks.len() == 0 {
        0
    } else {
        let before = latest_epoch(blocks.drop_last());
        if blocks.last().epoch > before {
            blocks.last().epoch
        } else {
            before
        }
    }
}

/// The largest round among `blocks`, 0 if there is none.
pub open spec fn latest_round(blocks: Seq<BlockSummary>) -> Round
    decreases blocks.len(),
{
    if blocks.len() == 0 {
        0
    } else {
        let before = latest_round(blocks.drop_last());
        if blocks.last().round > before {
            blocks.last().round
        } else {
            before
        }
    }
}

/// The positions in `blocks` of the blocks that carry a payload, ascending.
pub open spec fn payload_positions(blocks: Seq<BlockSummary>) -> Seq<usize>
    decreases blocks.len(),
{
    if blocks.len() == 0 {
        Seq::empty()
    } else {
        let before = payload_positions(blocks.drop_last());
        if blocks.last().has_payload {
            before.push((blocks.len() - 1) as usize)
        } else {
            before
        }
    }
}

/// The notification that follows the commit of `blocks`.
pub open spec fn spec_notification(blocks: Seq<BlockSummary>) -> Option<CommitNotification> {
    if blocks.len() == 0 {
        None
    } else {
        Some(CommitNotification { epoch: latest_epoch(blocks), round: latest_round(blocks) })
    }
}

/// One step of a sync to a ledger info, in the order in which they are taken.
#[derive(Clone, Copy, Debug, PartialEq, Eq, Structural)]
pub enum SyncStep {
    /// Let the executor drop what it holds in memory.
    FinishExecutor,
    /// Report the epoch and round of the target as committed, without payloads.
    NotifyCommit(CommitNotification),
    /// Have state sync bring the ledger to the target.
    SyncToTarget,
    /// Let the executor read the latest committed state again.
    ResetExecutor,
}

/// The steps of a sync to a ledger info at (`epoch`, `round`).
pub open spec fn spec_sync_steps(epoch: u64, round: Round) -> Seq<SyncStep> {
    seq![
        SyncStep::FinishExecutor,
        SyncStep::NotifyCommit(CommitNotification { epoch, round }),
        SyncStep::SyncToTarget,
        SyncStep::ResetExecutor,
    ]
}

/// Why a sync to a ledger info failed.
#[derive(Clone, Copy, Debug, PartialEq, Eq, Structural)]
pub enum SyncError {
    /// The executor could not be reset after the sync.
    ResetFailed,
    /// State sync did not reach the target.
    SyncFailed,
}

/// Why a block could not be computed.
#[derive(Clone, Copy, Debug, PartialEq, Eq, Structural)]
pub enum ComputeError {
    /// The transactions of the block could not be put together.
    DataUnavailable,
    /// The executor failed on the block.
    ExecutionFailed,
}

/// How far the computing of a block has come: whether its transactions could
/// be put together, whether the executor took them, and whether the mempool
/// could be told of the transactions that failed; `None` for what has not
/// been tried yet.
#[derive(Clone, Copy, Debug, PartialEq, Eq)]
pub struct ComputeProgress {
    pub data: Option<bool>,
    pub executed: Option<bool>,
    pub notified: Option<bool>,
}

/// What is to be done next for a block that is being computed.
#[derive(Clone, Copy, Debug, PartialEq, Eq, Structural)]
pub enum ComputeStep {
    /// Put the transactions of the block together.
    FetchData,
    /// Hand the block to the executor.
    Execute,
    /// Tell the mempool of the transactions that failed.
    NotifyFailedTransactions,
    /// The block is computed.
    Done,
    /// The block could not be computed.
    Failed(ComputeError),
}

/// The next step for a block whose computing has come as far as `progress`.
/// Without its transactions a block is not executed, and a block that the
/// executor did not take is not reported to the mempool; a mempool that
/// could not be told does not fail the block.
pub open spec fn spec_next_compute_step(progress: ComputeProgress) -> ComputeStep {
    match progress.data {
        None => ComputeStep::FetchData,
        Some(false) => ComputeStep::Failed(ComputeError::DataUnavailable),
        Some(true) => match progress.executed {
            None => ComputeStep::Execute,
            Some(false) => ComputeStep::Failed(ComputeError::ExecutionFailed),
            Some(true) => match progress.notified {
                None => ComputeStep::NotifyFailedTransactions,
                Some(_) => ComputeStep::Done,
            },
        },
    }
}

/// A block with what it takes to put its transactions together: its payload,
/// if it has one, and the batches that the payload refers to, in its order.
#[derive(Debug)]
pub struct BlockData {
    pub block: BlockSummary,
    pub payload: Option<Payload>,
    pub batches: Vec<Vec<SerializedTransaction>>,
}

/// The transactions of a block with `payload`, where `batches` are the
/// batches that the payload refers to; or why there are none: the payload
/// refers to a batch that has expired at the block's epoch and round, or the
/// batches are not those of the payload.
pub open spec fn spec_data(
    block: BlockSummary,
    payload: Option<Payload>,
    batches: Seq<Vec<SerializedTransaction>>,
) -> Result<Seq<Seq<u8>>, DataError> {
    match payload {
        None => Ok(Seq::empty()),
        Some(Payload::Empty) => Ok(Seq::empty()),
        Some(Payload::DirectMempool(txns)) => Ok(payload_view(txns@)),
        Some(Payload::InQuorumStore(proofs)) => if !live_at(
            proofs@,
            (block.epoch as int, block.round as int),
        ) {
            Err(DataError::ExpiredProof)
        } else if proofs@.len() != batches.len() {
            Err(DataError::BatchCountMismatch)
        } else {
            Ok(joined(batches_view(batches)))
        },
    }
}

/// The transactions of a run of blocks, block after block; or why the first
/// block that has none has none.
pub open spec fn spec_commit_data(blocks: Seq<BlockData>) -> Result<Seq<Seq<u8>>, DataError>
    decreases blocks.len(),
{
    if blocks.len() == 0 {
        Ok(Seq::empty())
    } else {
        match spec_commit_data(blocks.drop_last()) {
            Err(e) => Err(e),
            Ok(before) => match spec_data(
                blocks.last().block,
                blocks.last().payload,
                blocks.last().batches@,
            ) {
                Err(e) => Err(e),
                Ok(data) => Ok(before + data),
            },
        }
    }
}

/// A run of blocks whose first `i` blocks have their transactions and whose
/// next block has none has none as a whole, for the reason of that block.
proof fn lemma_commit_data_fails_on(blocks: Seq<BlockData>, i: int)
    requires
        0 <= i < blocks.len(),
        spec_commit_data(blocks.subrange(0, i)).is_ok(),
        spec_data(blocks[i].block, blocks[i].payload, blocks[i].batches@).is_err(),
    ensures
        spec_commit_data(blocks) == Err::<Seq<Seq<u8>>, DataError>(
            spec_data(blocks[i].block, blocks[i].payload, blocks[i].batches@)->Err_0,
        ),
    decreases blocks.len(),
{
    if i == blocks.len() - 1 {
        assert(blocks.drop_last() =~= blocks.subrange(0, i));
    } else {
        assert(blocks.drop_last().subrange(0, i) =~= blocks.subrange(0, i));
        lemma_commit_data_fails_on(blocks.drop_last(), i);
    }
}

/// Every block of a run that is committed carries only proofs that are live
/// at the block: each expires at the block's epoch and round or later.
pub proof fn lemma_committed_blocks_have_live_proofs(blocks: Seq<BlockData>, i: int)
    requires
        spec_commit_data(blocks).is_ok(),
        0 <= i < blocks.len(),
    ensures
        blocks[i].payload matches Some(Payload::InQuorumStore(proofs)) ==> live_at(
            proofs@,
            (blocks[i].block.epoch as int, blocks[i].block.round as int),
        ),
    decreases blocks.len(),
{
    if i < blocks.len() - 1 {
        lemma_committed_blocks_have_live_proofs(blocks.drop_last(), i);
    }
}

/// The link between consensus and execution.
#[derive(Debug)]
pub struct ExecutionProxy {
    validators: Vec<AccountAddress>,
}

impl View for ExecutionProxy {
    type V = Seq<AccountAddress>;

    /// The validators of the current epoch, in their order.
    closed spec fn view(&self) -> Seq<AccountAddress> {
        self.validators@
    }
}

impl ExecutionProxy {
    /// A proxy that knows of no validators yet.
    pub fn new() -> (p: Self)
        ensures
            p@ == Seq::<AccountAddress>::empty(),
    {
        ExecutionProxy { validators: Vec::new() }
    }

    /// Takes over the validators of a new epoch, in the order of the set.
    pub fn new_epoch(&mut self, epoch_state: &EpochState)
        ensures
            final(self)@ == addresses_of(epoch_state.verifier@),
    {
        self.validators = epoch_state.verifier.get_ordered_account_addresses();
    }

    /// The validators of the current epoch, in their order.
    pub fn validators(&self) -> (v: &Vec<AccountAddress>)
        ensures
            v@ == self@,
    {
        &self.validators
    }

    /// Says what the commit of `blocks` reports: the payloads of which blocks,
    /// and the latest epoch and round, each taken over all the blocks. An
    /// empty run reports nothing.
    pub fn commit(&self, blocks: &Vec<BlockSummary>) -> (plan: CommitPlan)
        ensures
            plan.blocks_with_payload@ == payload_positions(blocks@),
            plan.notification == spec_notification(blocks@),
    {
        let mut blocks_with_payload: Vec<usize> = Vec::new();
        let mut epoch: u64 = 0;
        let mut round: u64 = 0;
        let mut i: usize = 0;
        while i < blocks.len()
            invariant
                i <= blocks.len(),
                blocks_with_payload@ == payload_positions(blocks@.subrange(0, i as int)),
                epoch == latest_epoch(blocks@.subrange(0, i as int)),
                round == latest_round(blocks@.subrange(0, i as int)),
            decreases blocks.len() - i,
        {
            assert(blocks@.subrange(0, i + 1).drop_last() =~= blocks@.subrange(0, i as int));
            if blocks[i].has_payload {
                blocks_with_payload.push(i);
            }
            if blocks[i].epoch > epoch {
                epoch = blocks[i].epoch;
            }
            if blocks[i].round > round {
                round = blocks[i].round;
            }
            i += 1;
        }
        assert(blocks@.subrange(0, blocks.len() as int) =~= blocks@);
        let notification = if blocks.len() == 0 {
            None
        } else {
            Some(CommitNotification { epoch, round })
        };
        CommitPlan { blocks_with_payload, notification }
    }

    /// Decides what is to be done next for a block that is being computed.
    pub fn compute(progress: &ComputeProgress) -> (step: ComputeStep)
        ensures
            step == spec_next_compute_step(*progress),
    {
        match progress.data {
            None => ComputeStep::FetchData,
            Some(false) => ComputeStep::Failed(ComputeError::DataUnavailable),
            Some(true) => match progress.executed {
                None => ComputeStep::Execute,
                Some(false) => ComputeStep::Failed(ComputeError::ExecutionFailed),
                Some(true) => match progress.notified {
                    None => ComputeStep::NotifyFailedTransactions,
                    Some(_) => ComputeStep::Done,
                },
            },
        }
    }

    /// The transactions of a block, for it to be executed or committed: none
    /// for a block without payload, else those of its payload at the block's
    /// time, with `batches` the batches that the payload refers to. A block
    /// whose payload refers to a batch that has expired at the block's epoch
    /// and round gets no transactions, so that it is neither executed nor
    /// committed.
    pub fn get_data(
        block: &BlockSummary,
        payload: Option<Payload>,
        batches: Vec<Vec<SerializedTransaction>>,
    ) -> (r: Result<Vec<SerializedTransaction>, DataError>)
        ensures
            match spec_data(*block, payload, batches@) {
                Ok(data) => r matches Ok(txns) && payload_view(txns@) == data,
                Err(e) => r == Err::<Vec<SerializedTransaction>, DataError>(e),
            },
    {
        match payload {
            None => {
                let none: Vec<SerializedTransaction> = Vec::new();
                assert(payload_view(none@) =~= Seq::<Seq<u8>>::empty());
                Ok(none)
            },
            Some(payload) => {
                let r = payload.get_data(&LogicalTime::new(block.epoch, block.round), batches);
                proof {
                    if r is Ok && r->Ok_0@.len() == 0 {
                        assert(payload_view(r->Ok_0@) =~= Seq::<Seq<u8>>::empty());
                    }
                }
                r
            },
        }
    }

    /// The transactions of a run of blocks that is to be committed, block
    /// after block. The run is turned down as a whole if one of its blocks is:
    /// a run with a block whose payload refers to an expired batch is not
    /// committed.
    pub fn commit_data(blocks: Vec<BlockData>) -> (r: Result<
        Vec<SerializedTransaction>,
        DataError,
    >)
        ensures
            match spec_commit_data(blocks@) {
                Ok(data) => r matches Ok(txns) && payload_view(txns@) == data,
                Err(e) => r == Err::<Vec<SerializedTransaction>, DataError>(e),
            },
    {
        let ghost all = blocks@;
        let mut rest = blocks;
        let mut reversed: Vec<BlockData> = Vec::new();
        while rest.len() > 0
            invariant
                rest@.len() + reversed@.len() == all.len(),
                forall|k: int| 0 <= k < rest@.len() ==> rest@[k] == all[k],
                forall|k: int| 0 <= k < reversed@.len() ==> reversed@[k] == all[all.len() - 1 - k],
            decreases rest@.len(),
        {
            let last = rest.pop().unwrap();
            reversed.push(last);
        }
        let mut out: Vec<SerializedTransaction> = Vec::new();
        let ghost mut done: int = 0;
        assert(payload_view(out@) =~= Seq::<Seq<u8>>::empty());
        assert(all.subrange(0, 0) =~= Seq::<BlockData>::empty());
        while reversed.len() > 0
            invariant
                all == blocks@,
                0 <= done,
                done + reversed@.len() == all.len(),
                forall|k: int| 0 <= k < reversed@.len() ==> reversed@[k] == all[all.len() - 1 - k],
                spec_commit_data(all.subrange(0, done)) == Ok::<Seq<Seq<u8>>, DataError>(
                    payload_view(out@),
                ),
            decreases reversed@.len(),
        {
            let next = reversed.pop().unwrap();
            proof {
                assert(next == all[done]);
                assert(all.subrange(0, done + 1).drop_last() =~= all.subrange(0, done));
                assert(all.subrange(0, done + 1).last() == all[done]);
            }
            match Self::get_data(&next.block, next.payload, next.batches) {
                Ok(mut data) => {
                    proof {
                        assert(payload_view(out@ + data@) =~= payload_view(out@) + payload_view(
                            data@,
                        ));
                    }
                    out.append(&mut data);
                },
                Err(e) => {
                    proof {
                        lemma_commit_data_fails_on(all, done);
                    }
                    return Err(e);
                },
            }
            proof {
                done = done + 1;
            }
        }
        assert(all.subrange(0, all.len() as int) =~= all);
        Ok(out)
    }

    /// The steps of a sync to the ledger info at (`epoch`, `round`).
    pub fn sync_to(&self, epoch: u64, round: Round) -> (steps: Vec<SyncStep>)
        ensures
            steps@ == spec_sync_steps(epoch, round),
    {
        let mut steps: Vec<SyncStep> = Vec::new();
        steps.push(SyncStep::FinishExecutor);
        steps.push(SyncStep::NotifyCommit(CommitNotification { epoch, round }));
        steps.push(SyncStep::SyncToTarget);
        steps.push(SyncStep::ResetExecutor);
        assert(steps@ =~= spec_sync_steps(epoch, round));
        steps
    }

    /// The result of a sync, given whether state sync reached the target and
    /// whether the executor could be reset afterwards. A failed reset is
    /// reported before a failed sync.
    pub fn sync_result(synced: bool, reset: bool) -> (r: Result<(), SyncError>)
        ensures
            r == (if !reset {
                Err(SyncError::ResetFailed)
            } else if !synced {
                Err(SyncError::SyncFailed)
            } else {
                Ok(())
            }),
    {
        if !reset {
            Err(SyncError::ResetFailed)
        } else if !synced {
            Err(SyncError::SyncFailed)
        } else {
            Ok(())
        }
    }
}

/// A commit reports its blocks in the order in which consensus ordered them:
/// the positions reported ascend, each is that of a block with a payload, and
/// none of those is left out.
pub proof fn lemma_commit_keeps_order(blocks: Seq<BlockSummary>)
    requires
        blocks.len() <= usize::MAX,
    ensures
        forall|i: int, j: int|
            0 <= i < j < payload_positions(blocks).len() ==> payload_positions(blocks)[i]
                < payload_positions(blocks)[j],
        forall|i: int|
            0 <= i < payload_positions(blocks).len() ==> (#[trigger] payload_positions(blocks)[i])
                < blocks.len() && blocks[payload_positions(blocks)[i] as int].has_payload,
        forall|k: int|
            0 <= k < blocks.len() && blocks[k].has_payload ==> payload_positions(blocks).contains(
                k as usize,
            ),
    decreases blocks.len(),
{
    if blocks.len() > 0 {
        let init = blocks.drop_last();
        lemma_commit_keeps_order(init);
        let before = payload_positions(init);
        let all = payload_positions(blocks);
        assert forall|i: int| 0 <= i < all.len() implies (#[trigger] all[i]) < blocks.len()
            && blocks[all[i] as int].has_payload by {
            if i < before.len() {
                assert(all[i] == before[i]);
                assert(before[i] < init.len());
                assert(init[before[i] as int] == blocks[before[i] as int]);
            }
        }
        assert forall|i: int, j: int| 0 <= i < j < all.len() implies all[i] < all[j] by {
            if j < before.len() {
                assert(all[i] == before[i] && all[j] == before[j]);
            } else {
                assert(all[i] == before[i]);
                assert(before[i] < init.len());
            }
        }
        assert forall|k: int| 0 <= k < blocks.len() && blocks[k].has_payload implies all.contains(
            k as usize,
        ) by {
            if k < blocks.len() - 1 {
                assert(init[k] == blocks[k]);
                assert(before.contains(k as usize));
                let w = choose|w: int| 0 <= w < before.len() && before[w] == k as usize;
                assert(all[w] == k as usize);
            } else {
                assert(all[all.len() - 1] == k as usize);
            }
        }
    }
}

/// The latest epoch and round that a commit reports bound those of every
/// block committed.
pub proof fn lemma_latest_bounds(blocks: Seq<BlockSummary>, k: int)
    requires
        0 <= k < blocks.len(),
    ensures
        blocks[k].epoch <= latest_epoch(blocks),
        blocks[k].round <= latest_round(blocks),
    decreases blocks.len(),
{
    if k < blocks.len() - 1 {
        lemma_latest_bounds(blocks.drop_last(), k);
    }
}

} // verus!
