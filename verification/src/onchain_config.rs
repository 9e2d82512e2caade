//! The consensus configuration that the chain itself carries and that takes
//! effect at an epoch boundary.

use crate::account_address::AccountAddress;
use crate::logical_time::Round;
use std::collections::HashMap;
use vstd::prelude::*;

verus! {

/// Parameters of the reputation heuristic that looks at who proposed and who
/// voted in a window of recent blocks.
#[derive(Clone, Copy, Debug)]
pub struct ProposerAndVoterConfig {
    /// Selection weight of a validator that was active in the window.
    pub active_weight: u64,
    /// Selection weight of a validator that was not seen in the window.
    pub inactive_weight: u64,
    /// Selection weight of a validator whose proposals failed too often.
    pub failed_weight: u64,
    /// Share of failed proposals, in percent, above which a validator counts as failed.
    pub failure_threshold_percent: u32,
    /// The proposer window holds this many blocks per validator.
    pub proposer_window_num_validators_multiplier: usize,
    /// The voter window holds this many blocks per validator.
    pub voter_window_num_validators_multiplier: usize,
    /// Whether selection weights are multiplied by voting power.
    pub weight_by_voting_power: bool,
    /// How many epochs before the current one may contribute history.
    pub use_history_from_previous_epoch_max_count: u32,
}

/// The kinds of reputation-based election.
#[derive(Clone, Copy, Debug)]
pub enum LeaderReputationType {
    ProposerAndVoter(ProposerAndVoterConfig),
}

/// How the leader of a round is chosen.
#[derive(Debug)]
pub enum ProposerElectionType {
    /// One validator leads every round; the number is that of contiguous rounds.
    FixedProposer(u32),
    /// Validators take turns, each leading this many contiguous rounds.
    RotatingProposer(u32),
    /// Leaders are sampled by reputation.
    LeaderReputation(LeaderReputationType),
    /// An explicit table from round to leader; other rounds go to a default.
    RoundProposer(HashMap<Round, AccountAddress>),
}

/// The on-chain consensus configuration of an epoch.
#[derive(Debug)]
pub struct OnChainConsensusConfig {
    pub decoupled_execution: bool,
    pub back_pressure_limit: u64,
    pub exclude_round: u64,
    pub max_failed_authors_to_store: usize,
    pub proposer_election_type: ProposerElectionType,
}

/// The configuration that holds where the chain carries none that can be
/// read.
pub open spec fn spec_default_config() -> OnChainConsensusConfig {
    OnChainConsensusConfig {
        decoupled_execution: true,
        back_pressure_limit: 10,
        exclude_round: 20,
        max_failed_authors_to_store: 10,
        proposer_election_type: ProposerElectionType::LeaderReputation(
            LeaderReputationType::ProposerAndVoter(
                ProposerAndVoterConfig {
                    active_weight: 1000,
                    inactive_weight: 10,
                    failed_weight: 1,
                    failure_threshold_percent: 10,
                    proposer_window_num_validators_multiplier: 10,
                    voter_window_num_validators_multiplier: 1,
                    weight_by_voting_power: true,
                    use_history_from_previous_epoch_max_count: 5,
                },
            ),
        ),
    }
}

impl Default for OnChainConsensusConfig {
    /// The configuration that holds where the chain carries none that can be
    /// read: decoupled execution, and leaders by reputation.
    fn default() -> (c: Self)
        ensures
            c == spec_default_config(),
    {
        OnChainConsensusConfig {
            decoupled_execution: true,
            back_pressure_limit: 10,
            exclude_round: 20,
            max_failed_authors_to_store: 10,
            proposer_election_type: ProposerElectionType::LeaderReputation(
                LeaderReputationType::ProposerAndVoter(
                    ProposerAndVoterConfig {
                        active_weight: 1000,
                        inactive_weight: 10,
                        failed_weight: 1,
                        failure_threshold_percent: 10,
                        proposer_window_num_validators_multiplier: 10,
                        voter_window_num_validators_multiplier: 1,
                        weight_by_voting_power: true,
                        use_history_from_previous_epoch_max_count: 5,
                    },
                ),
            ),
        }
    }
}

impl OnChainConsensusConfig {
    /// Whether ordering is decoupled from execution.
    pub fn decoupled_execution(&self) -> (b: bool)
        ensures
            b == self.decoupled_execution,
    {
        self.decoupled_execution
    }

    /// How far ordering may run ahead of commit.
    pub fn back_pressure_limit(&self) -> (n: u64)
        ensures
            n == self.back_pressure_limit,
    {
        self.back_pressure_limit
    }

    /// The number of most recent rounds that reputation does not look at.
    pub fn leader_reputation_exclude_round(&self) -> (n: u64)
        ensures
            n == self.exclude_round,
    {
        self.exclude_round
    }

    /// How many failed authors a block records.
    pub fn max_failed_authors_to_store(&self) -> (n: usize)
        ensures
            n == self.max_failed_authors_to_store,
    {
        self.max_failed_authors_to_store
    }
}

} // verus!
