use casper_usd::error::Error;
use casper_usd::oracle::{
    report, stale, PriceOracle, INITIAL_PRICE, MAX_DEVIATION, MAX_STALENESS,
};
use odra_core::casper_types::account::AccountHash;
use odra_core::casper_types::contracts::ContractPackageHash;
use odra_core::prelude::Address;

fn account(n: u8) -> Address {
    Address::Account(AccountHash::new([n; 32]))
}

#[test]
fn oracle_constants() {
    assert_eq!(MAX_DEVIATION, 5);
    assert_eq!(MAX_STALENESS, 3600);
    assert_eq!(INITIAL_PRICE, 50_000_000);
}

#[test]
fn new_feed_starts_at_five_cents_with_its_owner_as_feeder() {
    let owner = account(1);
    let oracle = PriceOracle::init(owner, 1_000);
    assert_eq!(oracle.get_price(1_000), Ok(50_000_000));
    assert_eq!(oracle.get_twap_price(1_000), Ok(50_000_000));
    assert_eq!(oracle.get_last_update(), 1_000);
    assert!(oracle.is_feeder(owner));
    assert!(!oracle.is_feeder(account(2)));
    assert!(!oracle.is_stale(1_000));
}

#[test]
fn feed_is_stale_after_more_than_an_hour() {
    let oracle = PriceOracle::init(account(1), 1_000);
    assert!(!oracle.is_stale(4_600));
    assert!(oracle.is_stale(4_601));
    assert_eq!(oracle.get_price(4_600), Ok(50_000_000));
    assert_eq!(oracle.get_price(4_601), Err(Error::StalePrice));
    assert_eq!(oracle.get_twap_price(4_600), Ok(50_000_000));
    assert_eq!(oracle.get_twap_price(4_601), Err(Error::StalePrice));
    assert_eq!(oracle.quote(4_600), Some(50_000_000));
    assert_eq!(oracle.quote(4_601), None);
    // A reader whose clock is behind the last update sees a fresh feed.
    assert!(!oracle.is_stale(0));
    assert_eq!(oracle.get_price(0), Ok(50_000_000));
}

#[test]
fn staleness_near_the_end_of_time() {
    assert!(!stale(u64::MAX - 10, u64::MAX));
    assert!(!stale(u64::MAX, 0));
    assert!(stale(0, u64::MAX));
    assert!(!stale(u64::MAX - 3600, u64::MAX));
    assert!(stale(u64::MAX - 3601, u64::MAX));
}

#[test]
fn update_sets_the_spot_price_and_smooths_the_twap() {
    let owner = account(1);
    let mut oracle = PriceOracle::init(owner, 1_000);
    assert_eq!(oracle.update_price(owner, 2_000, 52_000_000), Ok(()));
    assert_eq!(oracle.get_price(2_000), Ok(52_000_000));
    // (50_000_000 * 9 + 52_000_000) / 10
    assert_eq!(oracle.get_twap_price(2_000), Ok(50_200_000));
    assert_eq!(oracle.get_last_update(), 2_000);
    assert_eq!(oracle.update_price(owner, 2_500, 48_000_000), Ok(()));
    // (50_200_000 * 9 + 48_000_000) / 10
    assert_eq!(oracle.get_twap_price(2_500), Ok(49_980_000));
    assert_eq!(oracle.get_price(2_500), Ok(48_000_000));
}

#[test]
fn update_refreshes_a_stale_feed() {
    let owner = account(1);
    let mut oracle = PriceOracle::init(owner, 1_000);
    assert!(oracle.is_stale(10_000));
    assert_eq!(oracle.update_price(owner, 10_000, 50_000_000), Ok(()));
    assert!(!oracle.is_stale(10_000));
    assert_eq!(oracle.get_price(13_600), Ok(50_000_000));
}

#[test]
fn update_within_five_percent_is_taken_and_beyond_is_refused() {
    let owner = account(1);
    let mut oracle = PriceOracle::init(owner, 1_000);
    // Exactly 5% above and below.
    assert_eq!(report(50_000_000, 52_500_000), Ok(50_250_000));
    assert_eq!(report(50_000_000, 47_500_000), Ok(49_750_000));
    // One base unit further is more than 5%.
    assert_eq!(report(50_000_000, 52_500_001), Err(Error::DeviationTooHigh));
    assert_eq!(report(50_000_000, 47_499_999), Err(Error::DeviationTooHigh));
    assert_eq!(report(50_000_000, 53_000_000), Err(Error::DeviationTooHigh));
    assert_eq!(report(50_000_000, 47_000_000), Err(Error::DeviationTooHigh));
    assert_eq!(report(50_000_000, u64::MAX), Err(Error::DeviationTooHigh));
    assert_eq!(report(u64::MAX, 1), Err(Error::DeviationTooHigh));
    // Of a smoothed price of 19, 5% is less than one base unit.
    assert_eq!(report(19, 19), Ok(19));
    assert_eq!(report(19, 20), Err(Error::DeviationTooHigh));
    assert_eq!(report(20, 21), Ok(20));
    assert_eq!(report(20, 19), Ok(19));

    assert_eq!(
        oracle.update_price(owner, 2_000, 53_000_000),
        Err(Error::DeviationTooHigh)
    );
    assert_eq!(oracle.get_price(2_000), Ok(50_000_000));
    assert_eq!(oracle.get_twap_price(2_000), Ok(50_000_000));
    assert_eq!(oracle.get_last_update(), 1_000);
}

#[test]
fn update_with_a_zero_price_is_refused() {
    let owner = account(1);
    let mut oracle = PriceOracle::init(owner, 1_000);
    assert_eq!(oracle.update_price(owner, 2_000, 0), Err(Error::ZeroPrice));
    assert_eq!(report(50_000_000, 0), Err(Error::ZeroPrice));
    assert_eq!(report(0, 0), Err(Error::ZeroPrice));
    assert_eq!(oracle.get_last_update(), 1_000);
}

#[test]
fn a_zero_twap_takes_any_positive_price() {
    assert_eq!(report(0, 1), Ok(0));
    assert_eq!(report(0, 10), Ok(1));
    assert_eq!(report(0, u64::MAX), Ok(u64::MAX / 10));
}

#[test]
fn smoothing_of_the_largest_prices_does_not_overflow() {
    assert_eq!(report(u64::MAX, u64::MAX), Ok(u64::MAX));
    let low = u64::MAX - u64::MAX / 20;
    assert_eq!(
        report(u64::MAX, low),
        Ok(((u64::MAX as u128 * 9 + low as u128) / 10) as u64)
    );
}

#[test]
fn only_feeders_update_the_price() {
    let (owner, stranger) = (account(1), account(2));
    let mut oracle = PriceOracle::init(owner, 1_000);
    assert_eq!(
        oracle.update_price(stranger, 2_000, 50_000_000),
        Err(Error::NotFeeder)
    );
    // The feeder check comes before the price checks.
    assert_eq!(oracle.update_price(stranger, 2_000, 0), Err(Error::NotFeeder));
    assert_eq!(oracle.get_last_update(), 1_000);
}

#[test]
fn owner_adds_and_removes_feeders() {
    let (owner, feeder, stranger) = (account(1), account(2), account(3));
    let mut oracle = PriceOracle::init(owner, 1_000);
    assert_eq!(oracle.add_feeder(stranger, feeder), Err(Error::NotOwner));
    assert!(!oracle.is_feeder(feeder));
    assert_eq!(oracle.add_feeder(owner, feeder), Ok(()));
    assert!(oracle.is_feeder(feeder));
    assert_eq!(oracle.update_price(feeder, 2_000, 51_000_000), Ok(()));
    assert_eq!(oracle.get_price(2_000), Ok(51_000_000));

    // A feeder is not the owner.
    assert_eq!(oracle.remove_feeder(feeder, owner), Err(Error::NotOwner));
    assert_eq!(oracle.remove_feeder(owner, feeder), Ok(()));
    assert!(!oracle.is_feeder(feeder));
    assert_eq!(
        oracle.update_price(feeder, 3_000, 51_000_000),
        Err(Error::NotFeeder)
    );
    // The owner can remove itself from the feeders and stays the owner.
    assert_eq!(oracle.remove_feeder(owner, owner), Ok(()));
    assert_eq!(
        oracle.update_price(owner, 3_000, 51_000_000),
        Err(Error::NotFeeder)
    );
    assert_eq!(oracle.add_feeder(owner, owner), Ok(()));
    assert_eq!(oracle.update_price(owner, 3_000, 51_000_000), Ok(()));
}

#[test]
fn an_account_and_a_contract_with_the_same_hash_are_two_identities() {
    let account = Address::Account(AccountHash::new([7; 32]));
    let contract = Address::Contract(ContractPackageHash::new([7; 32]));
    let mut oracle = PriceOracle::init(account, 1_000);
    assert!(oracle.is_feeder(account));
    assert!(!oracle.is_feeder(contract));
    assert_eq!(oracle.add_feeder(contract, contract), Err(Error::NotOwner));
    assert_eq!(oracle.add_feeder(account, contract), Ok(()));
    assert!(oracle.is_feeder(contract));
    assert_eq!(oracle.remove_feeder(account, account), Ok(()));
    assert!(!oracle.is_feeder(account));
    assert!(oracle.is_feeder(contract));
}
