use casper_usd::deposit::Settlement;
use casper_usd::error::Error;
use casper_usd::oracle::PriceOracle;
use casper_usd::stability_pool::StabilityPool;
use casper_usd::trove::Seizure;
use casper_usd::trove_manager::TroveManager;
use odra_core::casper_types::account::AccountHash;
use odra_core::casper_types::contracts::ContractPackageHash;
use odra_core::prelude::Address;

const YEAR: u64 = 31_536_000;
const FIVE_PERCENT: u64 = 50_000_000;

fn account(n: u8) -> Address {
    Address::Account(AccountHash::new([n; 32]))
}

fn contract(n: u8) -> Address {
    Address::Contract(ContractPackageHash::new([n; 32]))
}

fn admin() -> Address {
    account(1)
}

/// The ledger's own identity.
fn this() -> Address {
    contract(100)
}

fn ledger() -> TroveManager {
    TroveManager::init(admin(), contract(101), contract(102), contract(103))
}

/// A feed at $0.05, updated at `now`.
fn feed(now: u64) -> PriceOracle {
    PriceOracle::init(admin(), now)
}

/// A pool that takes offsets from `this()`.
fn pool() -> StabilityPool {
    StabilityPool::init(admin(), contract(102), this())
}

/// Walks the feed's price down, by 5% of the smoothed price at a time, until
/// it is at or below `target`.
fn walk_price_down(oracle: &mut PriceOracle, now: u64, target: u64) {
    while oracle.get_price(now).unwrap() > target {
        let twap = oracle.get_twap_price(now).unwrap();
        let next = (twap - twap / 20).max(target);
        oracle.update_price(admin(), now, next).unwrap();
    }
}

fn sum_over(ledger: &TroveManager, owners: &[Address]) -> (u64, u64, u64) {
    let mut sums = (0u64, 0u64, 0u64);
    for owner in owners {
        if ledger.get_trove_active(*owner) {
            sums.0 += ledger.get_trove_collateral(*owner);
            sums.1 += ledger.get_trove_debt(*owner);
            sums.2 += 1;
        }
    }
    sums
}

fn totals(ledger: &TroveManager) -> (u64, u64, u64) {
    (
        ledger.get_total_collateral(),
        ledger.get_total_debt(),
        ledger.get_trove_count(),
    )
}

#[test]
fn new_ledger_is_empty() {
    let ledger = ledger();
    assert_eq!(totals(&ledger), (0, 0, 0));
    assert!(!ledger.get_trove_active(account(2)));
    assert_eq!(ledger.get_trove_collateral(account(2)), 0);
    assert_eq!(ledger.get_trove_debt(account(2)), 0);
    assert_eq!(ledger.get_trove_interest_rate(account(2)), 0);
    assert_eq!(ledger.get_redemption_fee(), 5_000_000);
    assert_eq!(ledger.get_tcr(&feed(0), 0), Ok(0));
}

#[test]
fn only_the_owner_names_the_stability_pool() {
    let mut ledger = ledger();
    assert_eq!(
        ledger.set_stability_pool(account(2), contract(104)),
        Err(Error::NotOwner)
    );
    assert_eq!(ledger.set_stability_pool(admin(), contract(104)), Ok(()));
    assert_eq!(ledger.set_stability_pool(admin(), contract(105)), Ok(()));
}

#[test]
fn open_trove_records_the_trove_and_the_totals() {
    let user = account(2);
    let mut ledger = ledger();
    let oracle = feed(1_000);
    assert_eq!(
        ledger.open_trove(user, 1_000, &oracle, 3_015_000_000_000, 100_000_000_000, FIVE_PERCENT),
        Ok(())
    );
    assert!(ledger.get_trove_active(user));
    assert_eq!(ledger.get_trove_collateral(user), 3_015_000_000_000);
    assert_eq!(ledger.get_trove_debt(user), 100_500_000_000);
    assert_eq!(ledger.get_trove_interest_rate(user), FIVE_PERCENT);
    assert_eq!(totals(&ledger), (3_015_000_000_000, 100_500_000_000, 1));
    assert_eq!(ledger.get_collateral_ratio(&oracle, 1_000, user), Ok(150));
    assert_eq!(ledger.get_tcr(&oracle, 1_000), Ok(150));
    assert_eq!(ledger.is_liquidatable(&oracle, 1_000, user), Ok(false));
}

#[test]
fn open_trove_is_refused_whole() {
    let user = account(2);
    let mut ledger = ledger();
    let oracle = feed(1_000);
    let attempts = [
        ((0, 100_000_000_000, FIVE_PERCENT), Error::ZeroCollateral),
        ((3_015_000_000_000, 99_999_999_999, FIVE_PERCENT), Error::DebtBelowMinimum),
        ((3_015_000_000_000, 100_000_000_000, 4_999_999), Error::RateTooLow),
        ((3_015_000_000_000, 100_000_000_000, 200_000_000_001), Error::RateTooHigh),
        ((3_000_000_000_000, 100_000_000_000, FIVE_PERCENT), Error::BelowMinimumRatio),
    ];
    for ((collateral, debt, rate), error) in attempts {
        assert_eq!(
            ledger.open_trove(user, 1_000, &oracle, collateral, debt, rate),
            Err(error)
        );
        assert!(!ledger.get_trove_active(user));
        assert_eq!(totals(&ledger), (0, 0, 0));
    }
    assert_eq!(
        ledger.open_trove(user, 9_000, &oracle, 3_015_000_000_000, 100_000_000_000, FIVE_PERCENT),
        Err(Error::StalePrice)
    );
    assert_eq!(totals(&ledger), (0, 0, 0));
}

#[test]
fn one_account_has_one_trove() {
    let user = account(2);
    let mut ledger = ledger();
    let oracle = feed(1_000);
    ledger
        .open_trove(user, 1_000, &oracle, 3_015_000_000_000, 100_000_000_000, FIVE_PERCENT)
        .unwrap();
    assert_eq!(
        ledger.open_trove(user, 1_000, &oracle, 6_030_000_000_000, 100_000_000_000, FIVE_PERCENT),
        Err(Error::TroveExists)
    );
    assert_eq!(totals(&ledger), (3_015_000_000_000, 100_500_000_000, 1));
}

#[test]
fn collateral_of_3000_covers_a_debt_of_100_and_not_of_100_and_a_half() {
    let user = account(2);
    let mut ledger = ledger();
    let oracle = feed(1_000);
    // 6000 units against 100 units, recorded with their fee as 100.5 units.
    ledger
        .open_trove(user, 1_000, &oracle, 6_000_000_000_000, 100_000_000_000, FIVE_PERCENT)
        .unwrap();
    assert_eq!(ledger.repay(user, 1_000, 500_000_000), Ok(500_000_000));
    assert_eq!(ledger.get_trove_debt(user), 100_000_000_000);
    // Down to 3000 units: worth 150 units, 150% of the debt.
    assert_eq!(
        ledger.withdraw_collateral(user, 1_000, &oracle, 3_000_000_000_001),
        Err(Error::BelowMinimumRatio)
    );
    assert_eq!(
        ledger.withdraw_collateral(user, 1_000, &oracle, 3_000_000_000_000),
        Ok(())
    );
    assert_eq!(ledger.get_trove_collateral(user), 3_000_000_000_000);
    assert_eq!(ledger.get_collateral_ratio(&oracle, 1_000, user), Ok(150));
    // Raising the debt to 100.5 units: 497_512_438 and its fee of 2_487_562.
    assert_eq!(
        ledger.borrow(user, 1_000, &oracle, 497_512_438),
        Err(Error::BelowMinimumRatio)
    );
    assert_eq!(ledger.borrow(user, 1_000, &oracle, 1), Err(Error::BelowMinimumRatio));
    assert_eq!(ledger.get_trove_debt(user), 100_000_000_000);
    assert_eq!(totals(&ledger), (3_000_000_000_000, 100_000_000_000, 1));
}

#[test]
fn totals_are_the_sums_over_the_active_troves() {
    let owners = [account(2), account(3), account(4), contract(2)];
    let mut ledger = ledger();
    let mut oracle = feed(1_000);
    let check = |ledger: &TroveManager| assert_eq!(totals(ledger), sum_over(ledger, &owners));

    for (i, owner) in owners.iter().enumerate() {
        let debt = 100_000_000_000 + 7_000_000_000 * i as u64;
        ledger
            .open_trove(*owner, 1_000 + i as u64, &oracle, 9_000_000_000_000, debt, FIVE_PERCENT)
            .unwrap();
        check(&ledger);
    }
    assert_eq!(ledger.get_trove_count(), 4);

    ledger.add_collateral(owners[0], 2_000, 123_456_789).unwrap();
    check(&ledger);
    ledger.borrow(owners[1], 3_000, &oracle, 50_000_000_000).unwrap();
    check(&ledger);
    ledger.withdraw_collateral(owners[2], 4_000, &oracle, 1_000_000_000_000).unwrap();
    check(&ledger);
    ledger.adjust_interest_rate(owners[3], 4_500, 200_000_000_000).unwrap();
    check(&ledger);

    // A year on, every touch accrues interest on the touched trove alone.
    let later = 1_000 + YEAR;
    oracle.update_price(admin(), later, 50_000_000).unwrap();
    ledger.repay(owners[0], later, 40_000_000_000).unwrap();
    check(&ledger);
    ledger.repay(owners[1], later, u64::MAX).unwrap();
    check(&ledger);
    ledger.close_trove(owners[1], later).unwrap();
    check(&ledger);
    assert_eq!(ledger.get_trove_count(), 3);
    ledger.add_collateral(owners[3], later, 1).unwrap();
    check(&ledger);

    // Refused operations leave the sums alone too.
    let before = totals(&ledger);
    assert!(ledger.close_trove(owners[0], later).is_err());
    assert!(ledger.borrow(owners[2], later, &oracle, u64::MAX).is_err());
    assert!(ledger.withdraw_collateral(owners[2], later, &oracle, u64::MAX).is_err());
    assert_eq!(totals(&ledger), before);
    check(&ledger);

    // Liquidation takes a whole trove out of the sums.
    let mut pool = pool();
    walk_price_down(&mut oracle, later, 30_000_000);
    assert_eq!(ledger.is_liquidatable(&oracle, later, owners[3]), Ok(true));
    ledger.liquidate(this(), &mut pool, &oracle, later, owners[3]).unwrap();
    check(&ledger);
    assert_eq!(ledger.get_trove_count(), 2);
}

#[test]
fn each_account_keeps_its_own_trove() {
    let (first, second) = (account(2), account(3));
    let mut ledger = ledger();
    let oracle = feed(1_000);
    ledger
        .open_trove(first, 1_000, &oracle, 3_015_000_000_000, 100_000_000_000, 5_000_000)
        .unwrap();
    ledger
        .open_trove(second, 1_000, &oracle, 9_000_000_000_000, 200_000_000_000, 7_000_000)
        .unwrap();
    assert_eq!(ledger.get_trove_collateral(first), 3_015_000_000_000);
    assert_eq!(ledger.get_trove_debt(first), 100_500_000_000);
    assert_eq!(ledger.get_trove_interest_rate(first), 5_000_000);
    assert_eq!(ledger.get_trove_collateral(second), 9_000_000_000_000);
    assert_eq!(ledger.get_trove_debt(second), 201_000_000_000);
    assert_eq!(ledger.get_trove_interest_rate(second), 7_000_000);
    ledger.add_collateral(second, 1_000, 5).unwrap();
    assert_eq!(ledger.get_trove_collateral(first), 3_015_000_000_000);
    assert_eq!(ledger.get_trove_collateral(second), 9_000_000_000_005);
    assert!(!ledger.get_trove_active(account(4)));
}

#[test]
fn operations_need_an_active_trove() {
    let user = account(2);
    let mut ledger = ledger();
    let oracle = feed(1_000);
    assert_eq!(
        ledger.adjust_interest_rate(user, 1_000, FIVE_PERCENT),
        Err(Error::NoActiveTrove)
    );
    assert_eq!(ledger.add_collateral(user, 1_000, 1), Err(Error::NoActiveTrove));
    assert_eq!(
        ledger.withdraw_collateral(user, 1_000, &oracle, 0),
        Err(Error::NoActiveTrove)
    );
    assert_eq!(ledger.borrow(user, 1_000, &oracle, 1), Err(Error::NoActiveTrove));
    assert_eq!(ledger.repay(user, 1_000, 1), Err(Error::NoActiveTrove));
    assert_eq!(ledger.close_trove(user, 1_000), Err(Error::NoActiveTrove));
    assert_eq!(
        ledger.liquidate(this(), &mut pool(), &oracle, 1_000, user),
        Err(Error::NotLiquidatable)
    );
    assert_eq!(ledger.is_liquidatable(&oracle, 1_000, user), Ok(false));
    assert_eq!(ledger.get_collateral_ratio(&oracle, 1_000, user), Ok(0));
}

#[test]
fn interest_accrues_when_the_trove_is_touched() {
    let (user, other) = (account(2), account(3));
    let mut ledger = ledger();
    let oracle = feed(1_000);
    for owner in [user, other] {
        ledger
            .open_trove(owner, 1_000, &oracle, 6_030_000_000_000, 100_000_000_000, FIVE_PERCENT)
            .unwrap();
    }
    // Time alone changes nothing.
    assert_eq!(ledger.get_trove_debt(user), 100_500_000_000);
    // A touch brings the touched trove up to date, and the total with it.
    ledger.add_collateral(user, 1_000 + YEAR, 0).unwrap();
    assert_eq!(ledger.get_trove_debt(user), 105_525_000_000);
    assert_eq!(ledger.get_trove_debt(other), 100_500_000_000);
    assert_eq!(ledger.get_total_debt(), 206_025_000_000);
}

#[test]
fn a_second_operation_at_the_same_time_accrues_nothing() {
    let user = account(2);
    let mut ledger = ledger();
    let mut oracle = feed(1_000);
    ledger
        .open_trove(user, 1_000, &oracle, 9_000_000_000_000, 100_000_000_000, FIVE_PERCENT)
        .unwrap();
    let later = 1_000 + YEAR;
    oracle.update_price(admin(), later, 50_000_000).unwrap();

    ledger.add_collateral(user, later, 1).unwrap();
    assert_eq!(ledger.get_trove_debt(user), 105_525_000_000);
    ledger.add_collateral(user, later, 1).unwrap();
    assert_eq!(ledger.get_trove_debt(user), 105_525_000_000);
    ledger.adjust_interest_rate(user, later, 200_000_000_000).unwrap();
    assert_eq!(ledger.get_trove_debt(user), 105_525_000_000);
    ledger.withdraw_collateral(user, later, &oracle, 2).unwrap();
    assert_eq!(ledger.get_trove_debt(user), 105_525_000_000);
    assert_eq!(ledger.repay(user, later, 0), Ok(0));
    assert_eq!(ledger.get_trove_debt(user), 105_525_000_000);
    assert_eq!(ledger.get_total_debt(), 105_525_000_000);
    // Borrowing adds what is borrowed and its fee, and no interest.
    ledger.borrow(user, later, &oracle, 2_000).unwrap();
    assert_eq!(ledger.get_trove_debt(user), 105_525_002_010);
    assert_eq!(ledger.get_total_debt(), 105_525_002_010);
    // One second later interest is due again, at the new rate.
    ledger.add_collateral(user, later + 1, 0).unwrap();
    assert_eq!(ledger.get_trove_debt(user), 105_525_002_010 + 669_235);
}

#[test]
fn a_clock_that_runs_backwards_is_an_arithmetic_fault() {
    let user = account(2);
    let mut ledger = ledger();
    let oracle = feed(1_000);
    ledger
        .open_trove(user, 1_000, &oracle, 6_030_000_000_000, 100_000_000_000, FIVE_PERCENT)
        .unwrap();
    assert_eq!(ledger.add_collateral(user, 999, 1), Err(Error::Arithmetic));
    assert_eq!(ledger.repay(user, 999, 1), Err(Error::Arithmetic));
    assert_eq!(ledger.get_trove_collateral(user), 6_030_000_000_000);
    assert_eq!(Error::Arithmetic.kind(), casper_usd::error::ErrorKind::Arithmetic);
}

#[test]
fn ratio_checks_need_a_fresh_price() {
    let user = account(2);
    let mut ledger = ledger();
    let oracle = feed(1_000);
    ledger
        .open_trove(user, 1_000, &oracle, 6_030_000_000_000, 100_000_000_000, FIVE_PERCENT)
        .unwrap();
    let late = 1_000 + 3_601;
    assert_eq!(ledger.borrow(user, late, &oracle, 1), Err(Error::StalePrice));
    assert_eq!(
        ledger.withdraw_collateral(user, late, &oracle, 1),
        Err(Error::StalePrice)
    );
    assert_eq!(ledger.is_liquidatable(&oracle, late, user), Err(Error::StalePrice));
    assert_eq!(
        ledger.get_collateral_ratio(&oracle, late, user),
        Err(Error::StalePrice)
    );
    assert_eq!(ledger.get_tcr(&oracle, late), Err(Error::StalePrice));
    assert_eq!(
        ledger.liquidate(this(), &mut pool(), &oracle, late, user),
        Err(Error::StalePrice)
    );
    // Nothing was written, not even the accrual.
    assert_eq!(ledger.get_trove_debt(user), 100_500_000_000);
    // What needs no price goes through.
    assert_eq!(ledger.add_collateral(user, late, 1), Ok(()));
    assert_eq!(ledger.repay(user, late, u64::MAX), Ok(100_500_573_789));
    // Without debt a withdrawal needs no price either.
    assert_eq!(ledger.withdraw_collateral(user, late, &oracle, 1), Ok(()));
    assert_eq!(ledger.close_trove(user, late), Ok(6_030_000_000_000));
}

#[test]
fn repay_and_close_give_back_what_they_took() {
    let user = account(2);
    let mut ledger = ledger();
    let oracle = feed(1_000);
    ledger
        .open_trove(user, 1_000, &oracle, 6_030_000_000_000, 100_000_000_000, FIVE_PERCENT)
        .unwrap();
    assert_eq!(ledger.close_trove(user, 1_000), Err(Error::DebtOutstanding));
    assert_eq!(ledger.repay(user, 1_000, 500_000_000), Ok(500_000_000));
    assert_eq!(ledger.repay(user, 1_000, u64::MAX), Ok(100_000_000_000));
    assert_eq!(ledger.repay(user, 1_000, 5), Ok(0));
    assert_eq!(ledger.close_trove(user, 1_000), Ok(6_030_000_000_000));
    assert!(!ledger.get_trove_active(user));
    assert_eq!(ledger.get_trove_collateral(user), 0);
    assert_eq!(totals(&ledger), (0, 0, 0));
    assert_eq!(ledger.close_trove(user, 1_000), Err(Error::NoActiveTrove));
    // The account can open again.
    assert_eq!(
        ledger.open_trove(user, 2_000, &oracle, 3_015_000_000_000, 100_000_000_000, 5_000_000),
        Ok(())
    );
    assert_eq!(totals(&ledger), (3_015_000_000_000, 100_500_000_000, 1));
}

#[test]
fn liquidation_hands_debt_and_collateral_to_the_pool() {
    let (user, depositor) = (account(2), account(3));
    let mut ledger = ledger();
    let mut oracle = feed(1_000);
    let mut pool = pool();
    pool.deposit(depositor, 200_000_000_000).unwrap();
    ledger
        .open_trove(user, 1_000, &oracle, 3_015_000_000_000, 100_000_000_000, FIVE_PERCENT)
        .unwrap();
    assert_eq!(
        ledger.liquidate(this(), &mut pool, &oracle, 1_000, user),
        Err(Error::NotLiquidatable)
    );

    // 110% is reached at a price of 36_666_667; below it the trove can go.
    walk_price_down(&mut oracle, 1_000, 36_666_667);
    assert_eq!(oracle.get_price(1_000), Ok(36_666_667));
    assert_eq!(ledger.get_collateral_ratio(&oracle, 1_000, user), Ok(110));
    assert_eq!(ledger.is_liquidatable(&oracle, 1_000, user), Ok(false));
    walk_price_down(&mut oracle, 1_000, 36_666_666);
    assert_eq!(ledger.get_collateral_ratio(&oracle, 1_000, user), Ok(109));
    assert_eq!(ledger.is_liquidatable(&oracle, 1_000, user), Ok(true));

    assert_eq!(
        ledger.liquidate(this(), &mut pool, &oracle, 1_000, user),
        Ok(Seizure {
            debt: 100_500_000_000,
            collateral: 2_864_250_000_000,
            penalty: 150_750_000_000,
        })
    );
    assert!(!ledger.get_trove_active(user));
    assert_eq!(ledger.get_trove_collateral(user), 0);
    assert_eq!(ledger.get_trove_debt(user), 0);
    assert_eq!(totals(&ledger), (0, 0, 0));
    assert_eq!(pool.get_total_deposits(), 99_500_000_000);
    assert_eq!(pool.get_collateral_balance(), 2_864_250_000_000);
    assert_eq!(pool.get_pending_collateral_gain(depositor), Ok(2_864_250_000_000));
    assert_eq!(
        pool.claim_rewards(depositor),
        Ok(Settlement { collateral_gain: 2_864_250_000_000, debt_loss: 100_500_000_000 })
    );
    assert_eq!(pool.get_deposit(depositor), 99_500_000_000);
    // A liquidated trove cannot be liquidated again.
    assert_eq!(
        ledger.liquidate(this(), &mut pool, &oracle, 1_000, user),
        Err(Error::NotLiquidatable)
    );
}

#[test]
fn liquidation_by_accrued_interest() {
    let user = account(2);
    let mut ledger = ledger();
    let mut oracle = feed(1_000);
    let mut pool = pool();
    pool.deposit(account(3), 1_000_000_000_000).unwrap();
    ledger
        .open_trove(user, 1_000, &oracle, 3_015_000_000_000, 100_000_000_000, 2_000_000_000)
        .unwrap();
    let later = 1_000 + YEAR;
    oracle.update_price(admin(), later, 50_000_000).unwrap();
    // The recorded debt is what counts, and nobody has touched the trove.
    assert_eq!(ledger.is_liquidatable(&oracle, later, user), Ok(false));
    ledger.add_collateral(user, later, 0).unwrap();
    assert_eq!(ledger.get_trove_debt(user), 301_500_000_000);
    assert_eq!(ledger.get_collateral_ratio(&oracle, later, user), Ok(50));
    assert_eq!(ledger.is_liquidatable(&oracle, later, user), Ok(true));
    let seized = ledger.liquidate(this(), &mut pool, &oracle, later, user).unwrap();
    assert_eq!(seized.debt, 301_500_000_000);
    assert_eq!(seized.collateral + seized.penalty, 3_015_000_000_000);
    assert_eq!(pool.get_total_deposits(), 698_500_000_000);
}

#[test]
fn liquidation_into_an_empty_pool_succeeds_and_the_pool_takes_nothing() {
    let user = account(2);
    let mut ledger = ledger();
    let mut oracle = feed(1_000);
    let mut pool = pool();
    ledger
        .open_trove(user, 1_000, &oracle, 3_015_000_000_000, 100_000_000_000, FIVE_PERCENT)
        .unwrap();
    walk_price_down(&mut oracle, 1_000, 30_000_000);
    assert!(ledger.liquidate(this(), &mut pool, &oracle, 1_000, user).is_ok());
    assert_eq!(totals(&ledger), (0, 0, 0));
    assert_eq!(pool.get_total_deposits(), 0);
    assert_eq!(pool.get_collateral_balance(), 0);
}

#[test]
fn liquidation_fails_as_a_whole_where_the_pool_refuses() {
    let user = account(2);
    let mut ledger = ledger();
    let mut oracle = feed(1_000);
    ledger
        .open_trove(user, 1_000, &oracle, 3_015_000_000_000, 100_000_000_000, FIVE_PERCENT)
        .unwrap();
    walk_price_down(&mut oracle, 1_000, 30_000_000);

    // A pool that answers to another ledger.
    let mut foreign = StabilityPool::init(admin(), contract(102), contract(55));
    foreign.deposit(account(3), 200_000_000_000).unwrap();
    assert_eq!(
        ledger.liquidate(this(), &mut foreign, &oracle, 1_000, user),
        Err(Error::NotTroveManager)
    );
    // A pool too small to absorb the debt.
    let mut small = pool();
    small.deposit(account(3), 100_499_999_999).unwrap();
    assert_eq!(
        ledger.liquidate(this(), &mut small, &oracle, 1_000, user),
        Err(Error::Arithmetic)
    );
    for untouched in [&foreign, &small] {
        assert_eq!(untouched.get_collateral_balance(), 0);
        assert_eq!(untouched.get_pending_collateral_gain(account(3)), Ok(0));
    }
    assert_eq!(foreign.get_total_deposits(), 200_000_000_000);
    assert_eq!(small.get_total_deposits(), 100_499_999_999);
    assert!(ledger.get_trove_active(user));
    assert_eq!(totals(&ledger), (3_015_000_000_000, 100_500_000_000, 1));
}

#[test]
fn withdrawing_more_than_the_trove_holds_is_refused() {
    let user = account(2);
    let mut ledger = ledger();
    let oracle = feed(1_000);
    ledger
        .open_trove(user, 1_000, &oracle, 6_030_000_000_000, 100_000_000_000, FIVE_PERCENT)
        .unwrap();
    assert_eq!(
        ledger.withdraw_collateral(user, 1_000, &oracle, 6_030_000_000_001),
        Err(Error::InsufficientCollateral)
    );
    assert_eq!(ledger.get_trove_collateral(user), 6_030_000_000_000);
    assert_eq!(ledger.get_total_collateral(), 6_030_000_000_000);
}
