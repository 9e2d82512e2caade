//! The messages that validators exchange, reduced to what routing reads: the
//! kind of a message and the epoch that it belongs to.

use crate::logical_time::Round;
use vstd::prelude::*;

verus! {

/// A request for the proofs that the epochs from `start_epoch` up to, not
/// including, `end_epoch` ended.
#[derive(Clone, Copy, Debug, PartialEq, Eq, Structural)]
pub struct EpochRetrievalRequest {
    pub start_epoch: u64,
    pub end_epoch: u64,
}

/// The kinds of event that the actors of an epoch take.
#[derive(Clone, Copy, Debug, PartialEq, Eq, Hash, Structural)]
pub enum EventKind {
    ProposalMsg,
    VoteMsg,
    SyncInfo,
    CommitVote,
    CommitDecision,
    SignedDigest,
    Fragment,
    Batch,
    ProofOfStoreBroadcast,
    LocalTimeout,
    Shutdown,
}

/// A message from the network. Messages that belong to an epoch carry it.
#[derive(Clone, Copy, Debug, PartialEq, Eq, Structural)]
pub enum ConsensusMsg {
    BlockRetrievalRequest,
    BlockRetrievalResponse,
    EpochRetrievalRequest(EpochRetrievalRequest),
    ProposalMsg(u64),
    SyncInfo(u64),
    /// A proof that an epoch ended: the epoch, or `None` if the proof is empty.
    EpochChangeProof(Option<u64>),
    VoteMsg(u64),
    CommitVoteMsg(u64),
    CommitDecisionMsg(u64),
    SignedDigestMsg(u64),
    FragmentMsg(u64),
    BatchMsg(u64),
    ProofOfStoreBroadcastMsg(u64),
}

/// A message of an epoch whose signatures have not been checked yet.
#[derive(Clone, Copy, Debug, PartialEq, Eq, Structural)]
pub struct UnverifiedEvent {
    pub kind: EventKind,
    pub epoch: u64,
}

impl UnverifiedEvent {
    pub fn epoch(&self) -> (e: u64)
        ensures
            e == self.epoch,
    {
        self.epoch
    }
}

/// The event that `msg` stands for, if it belongs to an epoch.
pub open spec fn spec_unverified_event(msg: ConsensusMsg) -> Option<UnverifiedEvent> {
    match msg {
        ConsensusMsg::ProposalMsg(epoch) => Some(
            UnverifiedEvent { kind: EventKind::ProposalMsg, epoch },
        ),
        ConsensusMsg::SyncInfo(epoch) => Some(UnverifiedEvent { kind: EventKind::SyncInfo, epoch }),
        ConsensusMsg::VoteMsg(epoch) => Some(UnverifiedEvent { kind: EventKind::VoteMsg, epoch }),
        ConsensusMsg::CommitVoteMsg(epoch) => Some(
            UnverifiedEvent { kind: EventKind::CommitVote, epoch },
        ),
        ConsensusMsg::CommitDecisionMsg(epoch) => Some(
            UnverifiedEvent { kind: EventKind::CommitDecision, epoch },
        ),
        ConsensusMsg::SignedDigestMsg(epoch) => Some(
            UnverifiedEvent { kind: EventKind::SignedDigest, epoch },
        ),
        ConsensusMsg::FragmentMsg(epoch) => Some(
            UnverifiedEvent { kind: EventKind::Fragment, epoch },
        ),
        ConsensusMsg::BatchMsg(epoch) => Some(UnverifiedEvent { kind: EventKind::Batch, epoch }),
        ConsensusMsg::ProofOfStoreBroadcastMsg(epoch) => Some(
            UnverifiedEvent { kind: EventKind::ProofOfStoreBroadcast, epoch },
        ),
        _ => None,
    }
}

impl ConsensusMsg {
    /// The event that this message stands for, if it belongs to an epoch.
    pub fn unverified_event(&self) -> (r: Option<UnverifiedEvent>)
        ensures
            r == spec_unverified_event(*self),
    {
        match self {
            ConsensusMsg::ProposalMsg(epoch) => Some(
                UnverifiedEvent { kind: EventKind::ProposalMsg, epoch: *epoch },
            ),
            ConsensusMsg::SyncInfo(epoch) => Some(
                UnverifiedEvent { kind: EventKind::SyncInfo, epoch: *epoch },
            ),
            ConsensusMsg::VoteMsg(epoch) => Some(
                UnverifiedEvent { kind: EventKind::VoteMsg, epoch: *epoch },
            ),
            ConsensusMsg::CommitVoteMsg(epoch) => Some(
                UnverifiedEvent { kind: EventKind::CommitVote, epoch: *epoch },
            ),
            ConsensusMsg::CommitDecisionMsg(epoch) => Some(
                UnverifiedEvent { kind: EventKind::CommitDecision, epoch: *epoch },
            ),
            ConsensusMsg::SignedDigestMsg(epoch) => Some(
                UnverifiedEvent { kind: EventKind::SignedDigest, epoch: *epoch },
            ),
            ConsensusMsg::FragmentMsg(epoch) => Some(
                UnverifiedEvent { kind: EventKind::Fragment, epoch: *epoch },
            ),
            ConsensusMsg::BatchMsg(epoch) => Some(
                UnverifiedEvent { kind: EventKind::Batch, epoch: *epoch },
            ),
            ConsensusMsg::ProofOfStoreBroadcastMsg(epoch) => Some(
                UnverifiedEvent { kind: EventKind::ProofOfStoreBroadcast, epoch: *epoch },
            ),
            _ => None,
        }
    }
}

/// An event whose signatures have been checked against the validator set of
/// its epoch, or that the node raised itself.
#[derive(Clone, Copy, Debug, PartialEq, Eq, Structural)]
pub enum VerifiedEvent {
    ProposalMsg,
    VoteMsg,
    SyncInfo,
    CommitVote,
    CommitDecision,
    SignedDigest,
    Fragment,
    Batch,
    ProofOfStoreBroadcast,
    /// The timer of this round ran out.
    LocalTimeout(Round),
    Shutdown,
}

/// The kind of `event`.
pub open spec fn spec_kind(event: VerifiedEvent) -> EventKind {
    match event {
        VerifiedEvent::ProposalMsg => EventKind::ProposalMsg,
        VerifiedEvent::VoteMsg => EventKind::VoteMsg,
        VerifiedEvent::SyncInfo => EventKind::SyncInfo,
        VerifiedEvent::CommitVote => EventKind::CommitVote,
        VerifiedEvent::CommitDecision => EventKind::CommitDecision,
        VerifiedEvent::SignedDigest => EventKind::SignedDigest,
        VerifiedEvent::Fragment => EventKind::Fragment,
        VerifiedEvent::Batch => EventKind::Batch,
        VerifiedEvent::ProofOfStoreBroadcast => EventKind::ProofOfStoreBroadcast,
        VerifiedEvent::LocalTimeout(_) => EventKind::LocalTimeout,
        VerifiedEvent::Shutdown => EventKind::Shutdown,
    }
}

impl VerifiedEvent {
    /// The kind of this event, whatever it carries.
    pub fn kind(&self) -> (k: EventKind)
        ensures
            k == spec_kind(*self),
    {
        match self {
            VerifiedEvent::ProposalMsg => EventKind::ProposalMsg,
            VerifiedEvent::VoteMsg => EventKind::VoteMsg,
            VerifiedEvent::SyncInfo => EventKind::SyncInfo,
            VerifiedEvent::CommitVote => EventKind::CommitVote,
            VerifiedEvent::CommitDecision => EventKind::CommitDecision,
            VerifiedEvent::SignedDigest => EventKind::SignedDigest,
            VerifiedEvent::Fragment => EventKind::Fragment,
            VerifiedEvent::Batch => EventKind::Batch,
            VerifiedEvent::ProofOfStoreBroadcast => EventKind::ProofOfStoreBroadcast,
            VerifiedEvent::LocalTimeout(_) => EventKind::LocalTimeout,
            VerifiedEvent::Shutdown => EventKind::Shutdown,
        }
    }
}

} // verus!
