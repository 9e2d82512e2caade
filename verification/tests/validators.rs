use consensus_core::account_address::{AccountAddress, ADDRESS_LENGTH};
use consensus_core::logical_time::LogicalTime;
use consensus_core::validator_verifier::{EpochState, ValidatorConsensusInfo, ValidatorVerifier};

fn address(last: u8) -> AccountAddress {
    let mut bytes = [0u8; 32];
    bytes[31] = last;
    AccountAddress::new(bytes)
}

fn validator(last: u8, voting_power: u64) -> ValidatorConsensusInfo {
    ValidatorConsensusInfo { address: address(last), voting_power }
}

#[test]
fn address_keeps_its_bytes() {
    let mut bytes = [0u8; 32];
    for (i, b) in bytes.iter_mut().enumerate() {
        *b = i as u8;
    }
    let a = AccountAddress::new(bytes);
    assert_eq!(a.to_vec(), bytes.to_vec());
    assert_eq!(a.to_vec().len(), ADDRESS_LENGTH);
    assert_eq!(a.first_byte(), 0);
    assert_eq!(AccountAddress::new([7u8; 32]).first_byte(), 7);
}

#[test]
fn addresses_are_equal_when_their_bytes_are() {
    assert!(address(1) == address(1));
    assert!(address(1) != address(2));
    let mut high = [0u8; 32];
    high[0] = 1;
    assert!(AccountAddress::new(high) != address(1));
}

#[test]
fn addresses_are_ordered_by_their_first_difference() {
    assert!(address(1).is_below(&address(2)));
    assert!(!address(2).is_below(&address(1)));
    assert!(!address(2).is_below(&address(2)));
    let mut high = [0u8; 32];
    high[0] = 1;
    let high = AccountAddress::new(high);
    assert!(address(255).is_below(&high));
    assert!(!high.is_below(&address(255)));
    // the order agrees with the derived one
    assert!(address(255) < high);
}

#[test]
fn logical_time_is_ordered_by_epoch_then_round() {
    let t = |e, r| LogicalTime::new(e, r);
    assert!(t(1, 5).is_before(&t(1, 6)));
    assert!(t(1, 500).is_before(&t(2, 0)));
    assert!(!t(2, 0).is_before(&t(1, 500)));
    assert!(!t(3, 3).is_before(&t(3, 3)));
    assert!(t(3, 3).is_at_or_before(&t(3, 3)));
    assert!(t(3, 2).is_at_or_before(&t(3, 3)));
    assert!(!t(3, 4).is_at_or_before(&t(3, 3)));
    assert_eq!(t(7, 9).epoch(), 7);
    assert_eq!(t(7, 9).round(), 9);
    assert_eq!(t(7, 9), t(7, 9));
}

#[test]
fn quorum_is_more_than_two_thirds_of_the_voting_power() {
    let quorum = |powers: &[u64]| {
        let validators =
            powers.iter().enumerate().map(|(i, p)| validator(i as u8, *p)).collect();
        let v = ValidatorVerifier::new(validators).unwrap();
        (v.total_voting_power(), v.quorum_voting_power())
    };
    assert_eq!(quorum(&[1, 1, 1, 1]), (4, 3));
    assert_eq!(quorum(&[1, 1, 1]), (3, 3));
    assert_eq!(quorum(&[1]), (1, 1));
    assert_eq!(quorum(&[1, 1, 1, 1, 1, 1, 1]), (7, 5));
    assert_eq!(quorum(&[10, 20, 30, 40]), (100, 67));
    assert_eq!(quorum(&[0, 0]), (0, 1));
    assert_eq!(quorum(&[]), (0, 0));
    assert_eq!(
        quorum(&[u64::MAX, u64::MAX, u64::MAX]),
        (3 * (u64::MAX as u128), 2 * (u64::MAX as u128) + 1)
    );
}

#[test]
fn validator_set_answers_for_its_members_only() {
    let v = ValidatorVerifier::new(vec![validator(3, 30), validator(1, 10), validator(2, 20)])
        .unwrap();
    assert_eq!(v.len(), 3);
    assert!(!v.is_empty());
    assert_eq!(v.get_voting_power(&address(1)), Some(10));
    assert_eq!(v.get_voting_power(&address(2)), Some(20));
    assert_eq!(v.get_voting_power(&address(3)), Some(30));
    assert_eq!(v.get_voting_power(&address(4)), None);
    assert_eq!(v.get_ordered_account_addresses(), vec![address(3), address(1), address(2)]);
    assert_eq!(v.get_ordered_voting_powers(), vec![30, 10, 20]);
}

#[test]
fn validator_set_rejects_an_address_that_occurs_twice() {
    assert!(ValidatorVerifier::new(vec![validator(1, 10), validator(2, 20), validator(1, 30)])
        .is_none());
    assert!(ValidatorVerifier::new(vec![validator(1, 10), validator(1, 10)]).is_none());
    assert!(ValidatorVerifier::new(vec![]).unwrap().is_empty());
}

#[test]
fn copy_of_a_validator_set_is_the_same_set() {
    let v = ValidatorVerifier::new(vec![validator(1, 10), validator(2, 20)]).unwrap();
    let state = EpochState { epoch: 9, verifier: v };
    let copy = state.clone();
    assert_eq!(copy.epoch, 9);
    assert_eq!(copy.verifier.get_ordered_account_addresses(), vec![address(1), address(2)]);
    assert_eq!(copy.verifier.total_voting_power(), 30);
    assert_eq!(copy.verifier.quorum_voting_power(), 21);
}
