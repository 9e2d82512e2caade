use consensus_core::account_address::AccountAddress;
use consensus_core::onchain_config::{
    LeaderReputationType, OnChainConsensusConfig, ProposerAndVoterConfig, ProposerElectionType,
};
use consensus_core::proposer_election::{
    choose_leader, create_proposer_election, history_request, reputation_windows, ElectionError,
    EpochProposers, HistoryFetch, HistoryRequest, ProposerElection, ReputationWindows,
    RotatingProposer, RoundProposer,
};
use consensus_core::validator_verifier::{EpochState, ValidatorConsensusInfo, ValidatorVerifier};
use std::collections::HashMap;

fn address(last: u8) -> AccountAddress {
    let mut bytes = [0u8; 32];
    bytes[31] = last;
    AccountAddress::new(bytes)
}

fn epoch_state(epoch: u64, validators: &[(u8, u64)]) -> EpochState {
    let validators = validators
        .iter()
        .map(|(a, p)| ValidatorConsensusInfo { address: address(*a), voting_power: *p })
        .collect();
    EpochState { epoch, verifier: ValidatorVerifier::new(validators).unwrap() }
}

fn config(proposer_election_type: ProposerElectionType) -> OnChainConsensusConfig {
    OnChainConsensusConfig {
        decoupled_execution: true,
        back_pressure_limit: 10,
        exclude_round: 20,
        max_failed_authors_to_store: 10,
        proposer_election_type,
    }
}

fn proposer_and_voter(max_epochs_back: u32, weight_by_voting_power: bool) -> ProposerAndVoterConfig {
    ProposerAndVoterConfig {
        active_weight: 1000,
        inactive_weight: 10,
        failed_weight: 1,
        failure_threshold_percent: 10,
        proposer_window_num_validators_multiplier: 10,
        voter_window_num_validators_multiplier: 1,
        weight_by_voting_power,
        use_history_from_previous_epoch_max_count: max_epochs_back,
    }
}

fn reputation(max_epochs_back: u32, weight_by_voting_power: bool) -> OnChainConsensusConfig {
    config(ProposerElectionType::LeaderReputation(LeaderReputationType::ProposerAndVoter(
        proposer_and_voter(max_epochs_back, weight_by_voting_power),
    )))
}

#[test]
fn rotating_proposer_gives_each_validator_its_contiguous_rounds() {
    let p = RotatingProposer::new(vec![address(1), address(2), address(3)], 2).unwrap();
    let leaders: Vec<AccountAddress> = (0..8).map(|r| p.get_valid_proposer(r)).collect();
    assert_eq!(
        leaders,
        vec![
            address(1),
            address(1),
            address(2),
            address(2),
            address(3),
            address(3),
            address(1),
            address(1)
        ]
    );
    assert!(p.is_valid_proposer(address(2), 3));
    assert!(!p.is_valid_proposer(address(3), 3));
    // (u64::MAX / 2) mod 3 = 9223372036854775807 mod 3 = 1
    assert_eq!(p.get_valid_proposer(u64::MAX), address(2));
}

#[test]
fn rotating_proposer_with_one_round_each_is_plain_round_robin() {
    let p = RotatingProposer::new(vec![address(9), address(8), address(7), address(6)], 1).unwrap();
    for round in 0..20u64 {
        let expected = [address(9), address(8), address(7), address(6)][(round % 4) as usize];
        assert_eq!(p.get_valid_proposer(round), expected);
    }
}

#[test]
fn election_without_proposers_is_rejected_at_construction() {
    assert_eq!(RotatingProposer::new(vec![], 1).err(), Some(ElectionError::NoProposers));
    let nobody = epoch_state(1, &[]);
    for kind in [
        ProposerElectionType::RotatingProposer(1),
        ProposerElectionType::FixedProposer(1),
        ProposerElectionType::RoundProposer(HashMap::new()),
        ProposerElectionType::LeaderReputation(LeaderReputationType::ProposerAndVoter(
            proposer_and_voter(5, true),
        )),
    ] {
        let r = create_proposer_election(address(1), &nobody, &config(kind), HistoryFetch::Unavailable);
        assert_eq!(r.err(), Some(ElectionError::NoProposers));
    }
}

#[test]
fn rotation_with_zero_contiguous_rounds_is_rejected() {
    assert_eq!(
        RotatingProposer::new(vec![address(1)], 0).err(),
        Some(ElectionError::ZeroContiguousRounds)
    );
    let state = epoch_state(1, &[(1, 1), (2, 1)]);
    for kind in [ProposerElectionType::RotatingProposer(0), ProposerElectionType::FixedProposer(0)] {
        let r = create_proposer_election(address(1), &state, &config(kind), HistoryFetch::Unavailable);
        assert_eq!(r.err(), Some(ElectionError::ZeroContiguousRounds));
    }
}

#[test]
fn choose_leader_picks_the_least_address() {
    assert_eq!(choose_leader(&vec![address(5), address(2), address(9)]), address(2));
    assert_eq!(choose_leader(&vec![address(5)]), address(5));
    let mut high = [0u8; 32];
    high[0] = 1;
    assert_eq!(choose_leader(&vec![AccountAddress::new(high), address(255)]), address(255));
    assert_eq!(choose_leader(&vec![address(3), address(3), address(4)]), address(3));
}

#[test]
fn rotating_election_is_over_the_validators_in_their_order() {
    let state = epoch_state(3, &[(4, 1), (2, 1), (7, 1)]);
    let r = create_proposer_election(
        address(4),
        &state,
        &config(ProposerElectionType::RotatingProposer(3)),
        HistoryFetch::Unavailable,
    );
    match r {
        Ok(ProposerElection::Rotating(p)) => {
            assert_eq!(p.get_valid_proposer(0), address(4));
            assert_eq!(p.get_valid_proposer(2), address(4));
            assert_eq!(p.get_valid_proposer(3), address(2));
            assert_eq!(p.get_valid_proposer(6), address(7));
            assert_eq!(p.get_valid_proposer(9), address(4));
        }
        other => panic!("not a rotation: {:?}", other),
    }
}

#[test]
fn fixed_election_has_the_least_address_lead_every_round() {
    let state = epoch_state(3, &[(4, 1), (2, 1), (7, 1)]);
    let r = create_proposer_election(
        address(4),
        &state,
        &config(ProposerElectionType::FixedProposer(2)),
        HistoryFetch::Unavailable,
    );
    match r {
        Ok(ProposerElection::Rotating(p)) => {
            for round in [0u64, 1, 2, 3, 100, u64::MAX] {
                assert_eq!(p.get_valid_proposer(round), address(2));
            }
        }
        other => panic!("not a rotation: {:?}", other),
    }
}

#[test]
fn round_proposer_reads_its_table_and_falls_back_to_the_default() {
    let mut table = HashMap::new();
    table.insert(1u64, address(7));
    table.insert(5u64, address(8));
    let p = RoundProposer::new(table.clone(), address(1));
    assert_eq!(p.get_valid_proposer(1), address(7));
    assert_eq!(p.get_valid_proposer(5), address(8));
    assert_eq!(p.get_valid_proposer(2), address(1));
    assert!(p.is_valid_proposer(address(1), 0));
    assert!(!p.is_valid_proposer(address(7), 0));

    // through the configuration the default is the first validator
    let state = epoch_state(3, &[(4, 1), (2, 1)]);
    let r = create_proposer_election(
        address(4),
        &state,
        &config(ProposerElectionType::RoundProposer(table)),
        HistoryFetch::Unavailable,
    );
    match r {
        Ok(ProposerElection::Round(p)) => {
            assert_eq!(p.get_valid_proposer(1), address(7));
            assert_eq!(p.get_valid_proposer(0), address(4));
        }
        other => panic!("not a table: {:?}", other),
    }
}

#[test]
fn reputation_windows_follow_the_number_of_validators() {
    let c = proposer_and_voter(5, true);
    assert_eq!(
        reputation_windows(8, &c, 20, 10),
        Some(ReputationWindows {
            proposer_window_size: 80,
            voter_window_size: 8,
            window_size: 80,
            seek_len: 40,
            cache_size: 13,
        })
    );
    let mut voters_first = c;
    voters_first.proposer_window_num_validators_multiplier = 2;
    voters_first.voter_window_num_validators_multiplier = 3;
    assert_eq!(
        reputation_windows(4, &voters_first, 0, 0),
        Some(ReputationWindows {
            proposer_window_size: 8,
            voter_window_size: 12,
            window_size: 12,
            seek_len: 10,
            cache_size: 3,
        })
    );
}

#[test]
fn reputation_windows_that_do_not_fit_are_refused() {
    let mut c = proposer_and_voter(5, true);
    c.proposer_window_num_validators_multiplier = usize::MAX;
    assert_eq!(reputation_windows(2, &c, 20, 10), None);
    let c = proposer_and_voter(5, true);
    assert_eq!(reputation_windows(1, &c, u64::MAX, 10), None);
    assert_eq!(reputation_windows(1, &c, 0, usize::MAX), None);

    let state = epoch_state(3, &[(4, 1), (2, 1)]);
    let mut too_big = reputation(5, true);
    too_big.max_failed_authors_to_store = usize::MAX;
    let r = create_proposer_election(address(4), &state, &too_big, HistoryFetch::Unavailable);
    assert_eq!(r.err(), Some(ElectionError::WindowOverflow));
    assert_eq!(history_request(&state, &too_big), None);
}

#[test]
fn history_is_asked_for_as_far_back_as_configured_but_not_before_epoch_one() {
    let validators: Vec<(u8, u64)> = (1..=8).map(|i| (i, 1)).collect();
    let ask = |epoch: u64, back: u32| history_request(&epoch_state(epoch, &validators), &reputation(back, true));
    // window 80 + seek 40 rounds
    assert_eq!(ask(5, 2), Some(HistoryRequest { start_epoch: 2, end_epoch: 5, needed_rounds: 120 }));
    assert_eq!(ask(5, 10), Some(HistoryRequest { start_epoch: 0, end_epoch: 5, needed_rounds: 120 }));
    assert_eq!(ask(5, 4), Some(HistoryRequest { start_epoch: 0, end_epoch: 5, needed_rounds: 120 }));
    assert_eq!(ask(5, 3), Some(HistoryRequest { start_epoch: 1, end_epoch: 5, needed_rounds: 120 }));
    assert_eq!(ask(5, 0), None);
    assert_eq!(ask(1, 5), None);
    assert_eq!(ask(0, 5), None);
    // other elections read no history
    let state = epoch_state(5, &validators);
    assert_eq!(history_request(&state, &config(ProposerElectionType::RotatingProposer(1))), None);
}

fn reputation_of(r: Result<ProposerElection, ElectionError>) -> consensus_core::proposer_election::CachedProposerElection {
    match r {
        Ok(ProposerElection::Reputation(e)) => e,
        other => panic!("not a reputation election: {:?}", other),
    }
}

fn epochs(e: &consensus_core::proposer_election::CachedProposerElection) -> Vec<(u64, Vec<AccountAddress>)> {
    e.proposer_election.epoch_to_proposers.iter().map(|p| (p.epoch, p.proposers.clone())).collect()
}

#[test]
fn reputation_election_carries_the_parameters_of_the_configuration() {
    let state = epoch_state(7, &[(4, 10), (2, 20), (9, 30)]);
    let e = reputation_of(create_proposer_election(
        address(2),
        &state,
        &reputation(0, true),
        HistoryFetch::Unavailable,
    ));
    assert_eq!(e.recent_elections, 13);
    let inner = &e.proposer_election;
    assert_eq!(inner.epoch, 7);
    assert_eq!(inner.voting_powers, vec![10, 20, 30]);
    assert_eq!(inner.window_size, 30);
    assert_eq!(inner.seek_len, 40);
    assert_eq!(inner.exclude_round, 20);
    assert_eq!(inner.heuristic.author, address(2));
    assert_eq!(inner.heuristic.active_weight, 1000);
    assert_eq!(inner.heuristic.inactive_weight, 10);
    assert_eq!(inner.heuristic.failed_weight, 1);
    assert_eq!(inner.heuristic.failure_threshold_percent, 10);
    assert_eq!(inner.heuristic.proposer_window_size, 30);
    assert_eq!(inner.heuristic.voter_window_size, 3);
    assert_eq!(epochs(&e), vec![(7, vec![address(4), address(2), address(9)])]);

    let unweighted = reputation_of(create_proposer_election(
        address(2),
        &state,
        &reputation(0, false),
        HistoryFetch::Unavailable,
    ));
    assert_eq!(unweighted.proposer_election.voting_powers, vec![1, 1, 1]);
}

#[test]
fn reputation_election_falls_back_to_the_current_epoch_when_history_is_missing() {
    let state = epoch_state(7, &[(4, 1), (2, 1)]);
    let alone = vec![(7u64, vec![address(4), address(2)])];
    let history = || {
        Some(vec![
            EpochProposers { epoch: 5, proposers: vec![address(1)] },
            EpochProposers { epoch: 6, proposers: vec![address(1), address(2)] },
            EpochProposers { epoch: 7, proposers: vec![address(4), address(2)] },
        ])
    };
    let create = |back: u32, fetch: HistoryFetch| {
        epochs(&reputation_of(create_proposer_election(address(2), &state, &reputation(back, true), fetch)))
    };
    // the read failed
    assert_eq!(create(2, HistoryFetch::Unavailable), alone);
    // fewer ledger infos than epochs asked for: epochs 4..7 are three
    assert_eq!(
        create(2, HistoryFetch::Fetched { num_ledger_infos: 2, epoch_to_proposers: history() }),
        alone
    );
    assert_eq!(
        create(2, HistoryFetch::Fetched { num_ledger_infos: 4, epoch_to_proposers: history() }),
        alone
    );
    // the proposers could not be taken from the ledger infos
    assert_eq!(
        create(2, HistoryFetch::Fetched { num_ledger_infos: 3, epoch_to_proposers: None }),
        alone
    );
    // no history is configured
    assert_eq!(
        create(0, HistoryFetch::Fetched { num_ledger_infos: 3, epoch_to_proposers: history() }),
        alone
    );
    // all is there
    assert_eq!(
        create(2, HistoryFetch::Fetched { num_ledger_infos: 3, epoch_to_proposers: history() }),
        vec![
            (5, vec![address(1)]),
            (6, vec![address(1), address(2)]),
            (7, vec![address(4), address(2)])
        ]
    );
}

#[test]
fn reputation_election_with_history_of_two_earlier_epochs() {
    let validators: Vec<(u8, u64)> = (1..=8).map(|i| (i, 1)).collect();
    let state = epoch_state(10, &validators);
    let onchain = reputation(2, true);
    assert_eq!(
        history_request(&state, &onchain),
        Some(HistoryRequest { start_epoch: 7, end_epoch: 10, needed_rounds: 120 })
    );
    let all: Vec<AccountAddress> = (1..=8).map(address).collect();
    let fetched = HistoryFetch::Fetched {
        num_ledger_infos: 3,
        epoch_to_proposers: Some(vec![
            EpochProposers { epoch: 8, proposers: all.clone() },
            EpochProposers { epoch: 9, proposers: all.clone() },
            EpochProposers { epoch: 10, proposers: all.clone() },
        ]),
    };
    let e = reputation_of(create_proposer_election(address(1), &state, &onchain, fetched));
    assert_eq!(epochs(&e), vec![(8, all.clone()), (9, all.clone()), (10, all)]);
    assert_eq!(e.proposer_election.voting_powers, vec![1; 8]);
    assert_eq!(e.proposer_election.window_size, 80);
    assert_eq!(e.proposer_election.heuristic.voter_window_size, 8);
}
