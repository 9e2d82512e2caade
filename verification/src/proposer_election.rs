//! Leader election: who proposes in a round.
//!
//! Four schemes exist. A rotating proposer cycles through the validators, a
//! fixed proposer is a rotation over a single validator, a round proposer reads
//! an explicit table, and a reputation election samples by recent behaviour.
//! The first three are decided here; of the fourth this module derives the
//! parameters, including which part of the history may be used.

use crate::account_address::{bytes_lt, lemma_bytes_lt_transitive, Author};
use crate::logical_time::Round;
use crate::onchain_config::{
    LeaderReputationType, OnChainConsensusConfig, ProposerAndVoterConfig, ProposerElectionType,
};
use crate::validator_verifier::{addresses_of, EpochState, ValidatorConsensusInfo};
use std::collections::HashMap;
use vstd::prelude::*;

verus! {

broadcast use vstd::std_specs::hash::group_hash_axioms;

/// Rounds by which the proposer election may be asked ahead of the history
/// that a block records; added to that history for the size of the cache.
pub const PROPOSER_ELECTION_CACHING_WINDOW_ADDITION: usize = 3;

/// Rounds by which storage is expected to be ahead of the proposer round.
pub const PROPOSER_ROUND_BEHIND_STORAGE_BUFFER: usize = 10;

/// Why an election could not be set up.
#[derive(Clone, Copy, Debug, PartialEq, Eq, Structural)]
pub enum ElectionError {
    /// The validator set is empty.
    NoProposers,
    /// A rotation was asked to give each leader zero rounds.
    ZeroContiguousRounds,
    /// A window of the reputation election does not fit the machine's word.
    WindowOverflow,
}

/// The leader of `round` in a rotation over `proposers` in which each leads
/// `contiguous_rounds` rounds in a row.
pub open spec fn rotating_leader(
    proposers: Seq<Author>,
    contiguous_rounds: u32,
    round: Round,
) -> Author {
    proposers[((round as int / contiguous_rounds as int) % proposers.len() as int)]
}

/// An election in which the validators take turns.
#[derive(Debug)]
pub struct RotatingProposer {
    proposers: Vec<Author>,
    contiguous_rounds: u32,
}

impl RotatingProposer {
    #[verifier::type_invariant]
    spec fn wf(&self) -> bool {
        self.proposers@.len() > 0 && self.contiguous_rounds > 0
    }

    /// The proposers, in the order of their turns.
    pub closed spec fn proposers(&self) -> Seq<Author> {
        self.proposers@
    }

    /// The number of rounds in a row that one proposer leads.
    pub closed spec fn contiguous_rounds(&self) -> u32 {
        self.contiguous_rounds
    }

    /// A rotation over `proposers`. Rejected without proposers, and with zero
    /// contiguous rounds.
    pub fn new(proposers: Vec<Author>, contiguous_rounds: u32) -> (r: Result<Self, ElectionError>)
        ensures
            proposers@.len() == 0 ==> r == Err::<Self, ElectionError>(ElectionError::NoProposers),
            proposers@.len() > 0 && contiguous_rounds == 0 ==> r == Err::<Self, ElectionError>(
                ElectionError::ZeroContiguousRounds,
            ),
            proposers@.len() > 0 && contiguous_rounds > 0 ==> (r matches Ok(p) && p.proposers()
                == proposers@ && p.contiguous_rounds() == contiguous_rounds),
    {
        if proposers.len() == 0 {
            Err(ElectionError::NoProposers)
        } else if contiguous_rounds == 0 {
            Err(ElectionError::ZeroContiguousRounds)
        } else {
            Ok(RotatingProposer { proposers, contiguous_rounds })
        }
    }

    /// The leader of `round`.
    pub fn get_valid_proposer(&self, round: Round) -> (a: Author)
        ensures
            a == rotating_leader(self.proposers(), self.contiguous_rounds(), round),
            self.proposers().contains(a),
    {
        proof {
            use_type_invariant(self);
        }
        let turn: u64 = round / (self.contiguous_rounds as u64);
        let index: usize = (turn % (self.proposers.len() as u64)) as usize;
        self.proposers[index]
    }

    /// Whether `author` is the leader of `round`.
    pub fn is_valid_proposer(&self, author: Author, round: Round) -> (b: bool)
        ensures
            b == (author == rotating_leader(self.proposers(), self.contiguous_rounds(), round)),
    {
        self.get_valid_proposer(round) == author
    }
}

/// Whether `a` is one of `peers` and none of them is below it.
pub open spec fn is_least_address(peers: Seq<Author>, a: Author) -> bool {
    &&& peers.contains(a)
    &&& forall|i: int| 0 <= i < peers.len() ==> !bytes_lt(#[trigger] peers[i]@, a@)
}

/// The peer that stands for all rounds where one fixed leader is asked for:
/// the one with the least address.
pub fn choose_leader(peers: &Vec<Author>) -> (a: Author)
    requires
        peers@.len() > 0,
    ensures
        is_least_address(peers@, a),
{
    let mut best: Author = peers[0];
    let mut i: usize = 1;
    while i < peers.len()
        invariant
            1 <= i <= peers.len(),
            exists|k: int| 0 <= k < i && peers@[k] == best,
            forall|j: int| 0 <= j < i ==> !bytes_lt(#[trigger] peers@[j]@, best@),
        decreases peers.len() - i,
    {
        if peers[i].is_below(&best) {
            proof {
                let candidate = peers@[i as int];
                assert forall|j: int| 0 <= j < i + 1 implies !bytes_lt(
                    #[trigger] peers@[j]@,
                    candidate@,
                ) by {
                    if j < i && bytes_lt(peers@[j]@, candidate@) {
                        lemma_bytes_lt_transitive(peers@[j]@, candidate@, best@);
                    }
                    if j == i {
                        crate::account_address::lemma_bytes_lt_irreflexive(candidate@);
                    }
                }
            }
            best = peers[i];
        }
        i += 1;
    }
    best
}

/// The leader of `round` by a table with a default.
pub open spec fn round_leader(table: Map<Round, Author>, default_proposer: Author, round: Round) -> Author {
    if table.contains_key(round) {
        table[round]
    } else {
        default_proposer
    }
}

/// An election by an explicit table from round to leader.
#[derive(Debug)]
pub struct RoundProposer {
    proposers: HashMap<Round, Author>,
    default_proposer: Author,
}

impl RoundProposer {
    /// The table from round to leader.
    pub closed spec fn table(&self) -> Map<Round, Author> {
        self.proposers@
    }

    /// The leader of the rounds that the table leaves out.
    pub closed spec fn default_proposer(&self) -> Author {
        self.default_proposer
    }

    pub fn new(proposers: HashMap<Round, Author>, default_proposer: Author) -> (p: Self)
        ensures
            p.table() == proposers@,
            p.default_proposer() == default_proposer,
    {
        RoundProposer { proposers, default_proposer }
    }

    /// The leader of `round`: the table's entry, or the default where it has none.
    pub fn get_valid_proposer(&self, round: Round) -> (a: Author)
        ensures
            a == round_leader(self.table(), self.default_proposer(), round),
    {
        match self.proposers.get(&round) {
            Some(author) => *author,
            None => self.default_proposer,
        }
    }

    /// Whether `author` is the leader of `round`.
    pub fn is_valid_proposer(&self, author: Author, round: Round) -> (b: bool)
        ensures
            b == (author == round_leader(self.table(), self.default_proposer(), round)),
    {
        self.get_valid_proposer(round) == author
    }
}

/// The sizes that a reputation election works with.
#[derive(Clone, Copy, Debug, PartialEq, Eq, Structural)]
pub struct ReputationWindows {
    /// Blocks looked at for who proposed.
    pub proposer_window_size: usize,
    /// Blocks looked at for who voted.
    pub voter_window_size: usize,
    /// Blocks of history needed: the larger of the two windows.
    pub window_size: usize,
    /// Rounds that storage is read ahead of the window.
    pub seek_len: usize,
    /// Election results kept in memory.
    pub cache_size: usize,
}

/// The sizes of a reputation election over `n` validators, or `None` where one
/// of them exceeds the machine's word.
pub open spec fn spec_reputation_windows(
    n: nat,
    config: ProposerAndVoterConfig,
    exclude_round: u64,
    max_failed_authors_to_store: usize,
) -> Option<ReputationWindows> {
    let proposer_window = n * config.proposer_window_num_validators_multiplier;
    let voter_window = n * config.voter_window_num_validators_multiplier;
    let window = if proposer_window >= voter_window {
        proposer_window
    } else {
        voter_window
    };
    let seek = exclude_round + max_failed_authors_to_store + PROPOSER_ROUND_BEHIND_STORAGE_BUFFER;
    let cache = max_failed_authors_to_store + PROPOSER_ELECTION_CACHING_WINDOW_ADDITION;
    if window + seek <= usize::MAX && window + seek <= u64::MAX {
        Some(
            ReputationWindows {
                proposer_window_size: proposer_window as usize,
                voter_window_size: voter_window as usize,
                window_size: window as usize,
                seek_len: seek as usize,
                cache_size: cache as usize,
            },
        )
    } else {
        None
    }
}

/// Computes the sizes of a reputation election over `n` validators.
pub fn reputation_windows(
    n: usize,
    config: &ProposerAndVoterConfig,
    exclude_round: u64,
    max_failed_authors_to_store: usize,
) -> (r: Option<ReputationWindows>)
    ensures
        r == spec_reputation_windows(n as nat, *config, exclude_round, max_failed_authors_to_store),
{
    let ghost pm = config.proposer_window_num_validators_multiplier;
    let ghost vm = config.voter_window_num_validators_multiplier;
    let proposer_window = match n.checked_mul(config.proposer_window_num_validators_multiplier) {
        Some(w) => w,
        None => { return None; },
    };
    let voter_window = match n.checked_mul(config.voter_window_num_validators_multiplier) {
        Some(w) => w,
        None => { return None; },
    };
    let window = if proposer_window >= voter_window {
        proposer_window
    } else {
        voter_window
    };
    if exclude_round > usize::MAX as u64 {
        return None;
    }
    let seek = match (exclude_round as usize).checked_add(max_failed_authors_to_store) {
        Some(s) => match s.checked_add(PROPOSER_ROUND_BEHIND_STORAGE_BUFFER) {
            Some(s) => s,
            None => { return None; },
        },
        None => { return None; },
    };
    let needed = match window.checked_add(seek) {
        Some(s) => s,
        None => { return None; },
    };
    if needed as u128 > u64::MAX as u128 {
        return None;
    }
    Some(
        ReputationWindows {
            proposer_window_size: proposer_window,
            voter_window_size: voter_window,
            window_size: window,
            seek_len: seek,
            cache_size: max_failed_authors_to_store + PROPOSER_ELECTION_CACHING_WINDOW_ADDITION,
        },
    )
}

/// The first epoch whose history a reputation election in `epoch` may use:
/// `max_count` epochs back, but not before epoch 1, the first after genesis.
pub open spec fn first_epoch_to_consider(epoch: u64, max_count: u32) -> u64 {
    if epoch - max_count > 1 {
        (epoch - max_count) as u64
    } else {
        1
    }
}

/// The validators of one epoch, as far as leader election cares.
#[derive(Debug)]
pub struct EpochProposers {
    pub epoch: u64,
    pub proposers: Vec<Author>,
}

/// The epochs of `history` with their proposers, as plain values.
pub open spec fn epochs_view(history: Seq<EpochProposers>) -> Seq<(u64, Seq<Author>)> {
    history.map_values(|e: EpochProposers| (e.epoch, e.proposers@))
}

/// What has to be read from the ledger before a reputation election that
/// looks beyond the current epoch can be set up.
#[derive(Clone, Copy, Debug, PartialEq, Eq, Structural)]
pub struct HistoryRequest {
    /// Epoch-ending ledger infos from this epoch on,
    pub start_epoch: u64,
    /// up to, not including, this one.
    pub end_epoch: u64,
    /// Rounds of history that the election reads at most.
    pub needed_rounds: u64,
}

/// What came back for a `HistoryRequest`.
#[derive(Debug)]
pub enum HistoryFetch {
    /// Nothing was asked, or the read failed.
    Unavailable,
    /// The ledger answered with `num_ledger_infos` epoch-ending ledger infos,
    /// from which the proposers of each epoch were taken, if that succeeded.
    Fetched { num_ledger_infos: u64, epoch_to_proposers: Option<Vec<EpochProposers>> },
}

/// Whether `history` may be used by an election in `epoch` that starts at
/// epoch `first`: it must hold one ledger info for each epoch from the one
/// before `first` up to `epoch`, and the proposers must have been extracted.
pub open spec fn history_usable(epoch: u64, first: u64, history: HistoryFetch) -> bool {
    &&& epoch > first
    &&& history matches HistoryFetch::Fetched { num_ledger_infos, epoch_to_proposers }
    &&& num_ledger_infos == epoch - (first - 1)
    &&& epoch_to_proposers is Some
}

/// The proposers per epoch that a reputation election in `epoch` works with:
/// those of `history` where it is usable, else those of the current epoch alone.
pub open spec fn spec_epoch_to_proposers(
    epoch: u64,
    first: u64,
    proposers: Seq<Author>,
    history: HistoryFetch,
) -> Seq<(u64, Seq<Author>)> {
    if history_usable(epoch, first, history) {
        epochs_view(history->epoch_to_proposers.unwrap()@)
    } else {
        seq![(epoch, proposers)]
    }
}

/// The heuristic that weighs a validator by whether it proposed and voted.
#[derive(Clone, Copy, Debug)]
pub struct ProposerAndVoterHeuristic {
    pub author: Author,
    pub active_weight: u64,
    pub inactive_weight: u64,
    pub failed_weight: u64,
    pub failure_threshold_percent: u32,
    pub voter_window_size: usize,
    pub proposer_window_size: usize,
}

/// A reputation election, set up for one epoch.
#[derive(Debug)]
pub struct LeaderReputation {
    pub epoch: u64,
    pub epoch_to_proposers: Vec<EpochProposers>,
    pub voting_powers: Vec<u64>,
    pub window_size: usize,
    pub seek_len: usize,
    pub heuristic: ProposerAndVoterHeuristic,
    pub exclude_round: u64,
}

/// A reputation election behind a cache of its most recent results.
#[derive(Debug)]
pub struct CachedProposerElection {
    pub proposer_election: LeaderReputation,
    pub recent_elections: usize,
}

/// The election of an epoch.
#[derive(Debug)]
pub enum ProposerElection {
    Rotating(RotatingProposer),
    Round(RoundProposer),
    Reputation(CachedProposerElection),
}

/// The selection weights' multipliers: the voting powers where the election
/// weighs by them, else 1 for each validator.
pub open spec fn spec_election_powers(
    validators: Seq<ValidatorConsensusInfo>,
    weight_by_voting_power: bool,
) -> Seq<u64> {
    if weight_by_voting_power {
        validators.map_values(|v: ValidatorConsensusInfo| v.voting_power)
    } else {
        Seq::new(validators.len(), |i: int| 1u64)
    }
}

/// Whether `election` is the reputation election that `author` sets up in
/// `epoch` over `validators`, with the sizes `windows` and with `history`.
pub open spec fn is_reputation_election(
    election: CachedProposerElection,
    author: Author,
    epoch: u64,
    validators: Seq<ValidatorConsensusInfo>,
    config: ProposerAndVoterConfig,
    exclude_round: u64,
    windows: ReputationWindows,
    history: HistoryFetch,
) -> bool {
    let inner = election.proposer_election;
    &&& election.recent_elections == windows.cache_size
    &&& inner.epoch == epoch
    &&& epochs_view(inner.epoch_to_proposers@) == spec_epoch_to_proposers(
        epoch,
        first_epoch_to_consider(epoch, config.use_history_from_previous_epoch_max_count),
        addresses_of(validators),
        history,
    )
    &&& inner.voting_powers@ == spec_election_powers(validators, config.weight_by_voting_power)
    &&& inner.window_size == windows.window_size
    &&& inner.seek_len == windows.seek_len
    &&& inner.exclude_round == exclude_round
    &&& inner.heuristic == (ProposerAndVoterHeuristic {
        author,
        active_weight: config.active_weight,
        inactive_weight: config.inactive_weight,
        failed_weight: config.failed_weight,
        failure_threshold_percent: config.failure_threshold_percent,
        voter_window_size: windows.voter_window_size,
        proposer_window_size: windows.proposer_window_size,
    })
}

/// Why no election can be set up over `validators` under `config`, or `None`
/// if one can: there must be a validator, a rotation must give each leader a
/// round, and the windows of a reputation election must fit the machine.
pub open spec fn election_error(
    validators: Seq<ValidatorConsensusInfo>,
    config: OnChainConsensusConfig,
) -> Option<ElectionError> {
    if validators.len() == 0 {
        Some(ElectionError::NoProposers)
    } else {
        match config.proposer_election_type {
            ProposerElectionType::RotatingProposer(contiguous_rounds) => if contiguous_rounds == 0 {
                Some(ElectionError::ZeroContiguousRounds)
            } else {
                None
            },
            ProposerElectionType::FixedProposer(contiguous_rounds) => if contiguous_rounds == 0 {
                Some(ElectionError::ZeroContiguousRounds)
            } else {
                None
            },
            ProposerElectionType::RoundProposer(_) => None,
            ProposerElectionType::LeaderReputation(LeaderReputationType::ProposerAndVoter(c)) => {
                if spec_reputation_windows(
                    validators.len(),
                    c,
                    config.exclude_round,
                    config.max_failed_authors_to_store,
                ).is_none() {
                    Some(ElectionError::WindowOverflow)
                } else {
                    None
                }
            },
        }
    }
}

/// Whether `election` is the election of `epoch` over `validators` that the
/// validator `author` sets up under `config` and with `history`: a rotation
/// over all validators in their order, a rotation over the validator with
/// the least address alone, the table of the configuration with the first
/// validator as default, or a reputation election with its parameters.
pub open spec fn is_election(
    election: ProposerElection,
    author: Author,
    epoch: u64,
    validators: Seq<ValidatorConsensusInfo>,
    config: OnChainConsensusConfig,
    history: HistoryFetch,
) -> bool {
    let proposers = addresses_of(validators);
    match config.proposer_election_type {
        ProposerElectionType::RotatingProposer(contiguous_rounds) => {
            &&& election matches ProposerElection::Rotating(p)
            &&& p.proposers() == proposers
            &&& p.contiguous_rounds() == contiguous_rounds
        },
        ProposerElectionType::FixedProposer(contiguous_rounds) => {
            &&& election matches ProposerElection::Rotating(p)
            &&& p.proposers().len() == 1
            &&& is_least_address(proposers, p.proposers()[0])
            &&& p.contiguous_rounds() == contiguous_rounds
        },
        ProposerElectionType::RoundProposer(table) => {
            &&& election matches ProposerElection::Round(p)
            &&& p.table() == table@
            &&& p.default_proposer() == proposers[0]
        },
        ProposerElectionType::LeaderReputation(LeaderReputationType::ProposerAndVoter(c)) => {
            &&& election matches ProposerElection::Reputation(e)
            &&& spec_reputation_windows(
                validators.len(),
                c,
                config.exclude_round,
                config.max_failed_authors_to_store,
            ) matches Some(windows)
            &&& is_reputation_election(
                e,
                author,
                epoch,
                validators,
                c,
                config.exclude_round,
                windows,
                history,
            )
        },
    }
}

/// Whether `r` is what setting up the election of `epoch` over `validators`
/// comes to, for `author`, under `config` and with `history`.
pub open spec fn is_election_of(
    r: Result<ProposerElection, ElectionError>,
    author: Author,
    epoch: u64,
    validators: Seq<ValidatorConsensusInfo>,
    config: OnChainConsensusConfig,
    history: HistoryFetch,
) -> bool {
    match election_error(validators, config) {
        Some(e) => r == Err::<ProposerElection, ElectionError>(e),
        None => r matches Ok(election) && is_election(
            election,
            author,
            epoch,
            validators,
            config,
            history,
        ),
    }
}

/// What to read from the ledger before the election of `epoch_state` is set
/// up: a range of epoch-ending ledger infos where a reputation election looks
/// beyond the current epoch, and nothing otherwise.
pub open spec fn spec_history_request(
    epoch: u64,
    validators: Seq<ValidatorConsensusInfo>,
    config: OnChainConsensusConfig,
) -> Option<HistoryRequest> {
    match config.proposer_election_type {
        ProposerElectionType::LeaderReputation(LeaderReputationType::ProposerAndVoter(c)) => {
            let first = first_epoch_to_consider(epoch, c.use_history_from_previous_epoch_max_count);
            match spec_reputation_windows(
                validators.len(),
                c,
                config.exclude_round,
                config.max_failed_authors_to_store,
            ) {
                Some(windows) => if validators.len() > 0 && epoch > first {
                    Some(
                        HistoryRequest {
                            start_epoch: (first - 1) as u64,
                            end_epoch: epoch,
                            needed_rounds: (windows.window_size + windows.seek_len) as u64,
                        },
                    )
                } else {
                    None
                },
                None => None,
            }
        },
        _ => None,
    }
}

fn first_epoch(epoch: u64, max_count: u32) -> (first: u64)
    ensures
        first == first_epoch_to_consider(epoch, max_count),
        1 <= first,
{
    let back = epoch.saturating_sub(max_count as u64);
    if back > 1 {
        back
    } else {
        1
    }
}

/// Says which epoch-ending ledger infos the election of `epoch_state` needs
/// read before `create_proposer_election` is called, if any.
pub fn history_request(epoch_state: &EpochState, onchain_config: &OnChainConsensusConfig) -> (r:
    Option<HistoryRequest>)
    ensures
        r == spec_history_request(epoch_state.epoch, epoch_state.verifier@, *onchain_config),
{
    match &onchain_config.proposer_election_type {
        ProposerElectionType::LeaderReputation(LeaderReputationType::ProposerAndVoter(c)) => {
            let n = epoch_state.verifier.len();
            let first = first_epoch(epoch_state.epoch, c.use_history_from_previous_epoch_max_count);
            match reputation_windows(
                n,
                c,
                onchain_config.exclude_round,
                onchain_config.max_failed_authors_to_store,
            ) {
                Some(windows) => {
                    if n > 0 && epoch_state.epoch > first {
                        Some(
                            HistoryRequest {
                                start_epoch: first - 1,
                                end_epoch: epoch_state.epoch,
                                needed_rounds: (windows.window_size + windows.seek_len) as u64,
                            },
                        )
                    } else {
                        None
                    }
                },
                None => None,
            }
        },
        _ => None,
    }
}

fn ones(n: usize) -> (v: Vec<u64>)
    ensures
        v@ == Seq::new(n as nat, |i: int| 1u64),
{
    let mut v: Vec<u64> = Vec::new();
    let mut i: usize = 0;
    while i < n
        invariant
            i <= n,
            v@ == Seq::new(i as nat, |k: int| 1u64),
        decreases n - i,
    {
        v.push(1);
        assert(v@ =~= Seq::new((i + 1) as nat, |k: int| 1u64));
        i += 1;
    }
    v
}

/// Sets up the election of `epoch_state` as the on-chain configuration asks,
/// for the validator `author`. `history` is what was read for
/// `history_request`; where it is missing or incomplete, a reputation election
/// works with the current epoch alone. An empty validator set is rejected.
pub fn create_proposer_election(
    author: Author,
    epoch_state: &EpochState,
    onchain_config: &OnChainConsensusConfig,
    history: HistoryFetch,
) -> (r: Result<ProposerElection, ElectionError>)
    ensures
        is_election_of(
            r,
            author,
            epoch_state.epoch,
            epoch_state.verifier@,
            *onchain_config,
            history,
        ),
{
    let proposers = epoch_state.verifier.get_ordered_account_addresses();
    if proposers.len() == 0 {
        return Err(ElectionError::NoProposers);
    }
    match &onchain_config.proposer_election_type {
        ProposerElectionType::RotatingProposer(contiguous_rounds) => {
            match RotatingProposer::new(proposers, *contiguous_rounds) {
                Ok(p) => Ok(ProposerElection::Rotating(p)),
                Err(e) => Err(e),
            }
        },
        ProposerElectionType::FixedProposer(contiguous_rounds) => {
            let proposer = choose_leader(&proposers);
            let mut single: Vec<Author> = Vec::new();
            single.push(proposer);
            match RotatingProposer::new(single, *contiguous_rounds) {
                Ok(p) => Ok(ProposerElection::Rotating(p)),
                Err(e) => Err(e),
            }
        },
        ProposerElectionType::RoundProposer(round_proposers) => {
            let default_proposer = proposers[0];
            Ok(ProposerElection::Round(RoundProposer::new(round_proposers.clone(), default_proposer)))
        },
        ProposerElectionType::LeaderReputation(LeaderReputationType::ProposerAndVoter(c)) => {
            let windows = match reputation_windows(
                proposers.len(),
                c,
                onchain_config.exclude_round,
                onchain_config.max_failed_authors_to_store,
            ) {
                Some(w) => w,
                None => { return Err(ElectionError::WindowOverflow); },
            };
            let heuristic = ProposerAndVoterHeuristic {
                author,
                active_weight: c.active_weight,
                inactive_weight: c.inactive_weight,
                failed_weight: c.failed_weight,
                failure_threshold_percent: c.failure_threshold_percent,
                voter_window_size: windows.voter_window_size,
                proposer_window_size: windows.proposer_window_size,
            };
            let voting_powers = if c.weight_by_voting_power {
                epoch_state.verifier.get_ordered_voting_powers()
            } else {
                ones(proposers.len())
            };
            let epoch = epoch_state.epoch;
            let first = first_epoch(epoch, c.use_history_from_previous_epoch_max_count);
            let ghost wanted = spec_epoch_to_proposers(epoch, first, proposers@, history);
            let epoch_to_proposers = match history {
                HistoryFetch::Fetched { num_ledger_infos, epoch_to_proposers: Some(found) } => {
                    if epoch > first && num_ledger_infos == epoch - (first - 1) {
                        found
                    } else {
                        current_epoch_alone(epoch, proposers)
                    }
                },
                _ => current_epoch_alone(epoch, proposers),
            };
            assert(epochs_view(epoch_to_proposers@) == wanted);
            Ok(
                ProposerElection::Reputation(
                    CachedProposerElection {
                        proposer_election: LeaderReputation {
                            epoch,
                            epoch_to_proposers,
                            voting_powers,
                            window_size: windows.window_size,
                            seek_len: windows.seek_len,
                            heuristic,
                            exclude_round: onchain_config.exclude_round,
                        },
                        recent_elections: windows.cache_size,
                    },
                ),
            )
        },
    }
}

fn current_epoch_alone(epoch: u64, proposers: Vec<Author>) -> (v: Vec<EpochProposers>)
    ensures
        epochs_view(v@) == seq![(epoch, proposers@)],
{
    let mut v: Vec<EpochProposers> = Vec::new();
    v.push(EpochProposers { epoch, proposers });
    assert(epochs_view(v@) =~= seq![(epoch, proposers@)]);
    v
}

/// The leader of a rotation is always one of its proposers.
pub proof fn lemma_rotating_leader_is_proposer(
    proposers: Seq<Author>,
    contiguous_rounds: u32,
    round: Round,
)
    requires
        proposers.len() > 0,
        contiguous_rounds > 0,
    ensures
        proposers.contains(rotating_leader(proposers, contiguous_rounds, round)),
{
    let turn = round as int / contiguous_rounds as int;
    assert(0 <= turn % (proposers.len() as int) && turn % (proposers.len() as int) < proposers.len());
}

/// In a rotation the rounds of one turn have one leader, and after as many
/// turns as there are proposers the same leader comes again.
pub proof fn lemma_rotation_repeats(proposers: Seq<Author>, contiguous_rounds: u32, round: Round)
    requires
        proposers.len() > 0,
        contiguous_rounds > 0,
        round + proposers.len() * contiguous_rounds <= u64::MAX,
    ensures
        rotating_leader(proposers, contiguous_rounds, round) == rotating_leader(
            proposers,
            contiguous_rounds,
            (round + proposers.len() * contiguous_rounds) as u64,
        ),
{
    let c = contiguous_rounds as int;
    let n = proposers.len() as int;
    let r = round as int;
    assert((r + n * c) / c == r / c + n) by (nonlinear_arith)
        requires
            c > 0,
            r >= 0,
            n >= 0,
    ;
    assert((r / c + n) % n == (r / c) % n) by (nonlinear_arith)
        requires
            n > 0,
            r / c >= 0,
    ;
}

} // verus!
