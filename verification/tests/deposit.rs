use casper_usd::deposit::{
    empty_pool, no_deposit, Deposit, PoolTotals, Settlement, Stake,
};
use casper_usd::error::Error;

const SCALE: u128 = 1_000_000_000_000_000_000;

fn pool_with(total: u64, balance: u64, gain_per_unit: u128, loss_per_unit: u128) -> PoolTotals {
    PoolTotals {
        total_deposits: total,
        cumulative_collateral_per_unit: gain_per_unit,
        cumulative_debt_loss_per_unit: loss_per_unit,
        collateral_balance: balance,
        pending_interest_revenue: 0,
    }
}

fn settled_deposit(amount: u64) -> Deposit {
    Deposit { amount, collateral_snapshot: 0, loss_snapshot: 0 }
}

#[test]
fn empty_records() {
    assert_eq!(no_deposit(), settled_deposit(0));
    assert_eq!(empty_pool(), pool_with(0, 0, 0, 0));
}

#[test]
fn pool_offset_raises_both_accumulators_and_lowers_the_total_at_once() {
    let after = pool_with(2000, 0, 0, 0).offset(200, 20).unwrap();
    assert_eq!(
        after,
        pool_with(1800, 20, 10_000_000_000_000_000, 100_000_000_000_000_000)
    );
    // A second offset is shared over what the first one left.
    let again = after.offset(180, 9).unwrap();
    assert_eq!(
        again,
        pool_with(
            1620,
            29,
            10_000_000_000_000_000 + 5_000_000_000_000_000,
            100_000_000_000_000_000 + 100_000_000_000_000_000
        )
    );
}

#[test]
fn pool_offset_into_an_empty_pool_does_nothing() {
    assert_eq!(empty_pool().offset(200, 20), Ok(empty_pool()));
    let drained = pool_with(0, 7, 5, 6);
    assert_eq!(drained.offset(u64::MAX, u64::MAX), Ok(drained));
}

#[test]
fn pool_offset_of_nothing_changes_nothing() {
    let pool = pool_with(2000, 7, 5, 6);
    assert_eq!(pool.offset(0, 0), Ok(pool));
}

#[test]
fn pool_offset_cannot_absorb_more_than_the_pool_holds() {
    assert_eq!(pool_with(2000, 0, 0, 0).offset(2001, 20), Err(Error::Arithmetic));
    let all = pool_with(2000, 0, 0, 0).offset(2000, 20).unwrap();
    assert_eq!(all.total_deposits, 0);
    assert_eq!(all.cumulative_debt_loss_per_unit, SCALE);
}

#[test]
fn pool_offset_reports_accumulators_and_balances_that_do_not_fit() {
    assert_eq!(
        pool_with(2000, u64::MAX, 0, 0).offset(0, 1),
        Err(Error::Arithmetic)
    );
    assert_eq!(
        pool_with(1, 0, u128::MAX, 0).offset(0, 1),
        Err(Error::Arithmetic)
    );
    assert_eq!(
        pool_with(1, 0, 0, u128::MAX).offset(1, 0),
        Err(Error::Arithmetic)
    );
    // The largest collateral over the smallest pool still fits the accumulator.
    let most = pool_with(1, 0, 0, 0).offset(0, u64::MAX).unwrap();
    assert_eq!(most.cumulative_collateral_per_unit, u64::MAX as u128 * SCALE);
    assert_eq!(most.collateral_balance, u64::MAX);
}

#[test]
fn accumulators_never_fall_over_a_run_of_offsets() {
    let mut pool = pool_with(1_000_000, 0, 0, 0);
    let offsets = [(0, 5), (10, 0), (999, 1), (1, 1_000_000), (0, 0), (500_000, 3)];
    for (debt, collateral) in offsets {
        let after = pool.offset(debt, collateral).unwrap();
        assert!(after.cumulative_collateral_per_unit >= pool.cumulative_collateral_per_unit);
        assert!(after.cumulative_debt_loss_per_unit >= pool.cumulative_debt_loss_per_unit);
        pool = after;
    }
    // A refused offset is no offset.
    assert_eq!(pool.offset(u64::MAX, 0), Err(Error::Arithmetic));
}

#[test]
fn pool_receives_interest_as_pending_revenue() {
    let pool = pool_with(2000, 7, 5, 6);
    let after = pool.receive_interest(40).unwrap();
    assert_eq!(after.pending_interest_revenue, 40);
    assert_eq!(after.receive_interest(2).unwrap().pending_interest_revenue, 42);
    assert_eq!(PoolTotals { pending_interest_revenue: 0, ..after }, pool);
    let full = PoolTotals { pending_interest_revenue: u64::MAX, ..pool };
    assert_eq!(full.receive_interest(1), Err(Error::Arithmetic));
    assert_eq!(full.receive_interest(0), Ok(full));
}

#[test]
fn settlement_pays_the_gain_and_takes_the_loss() {
    let stake = Stake {
        deposit: settled_deposit(1000),
        pool: pool_with(1800, 20, 10_000_000_000_000_000, 100_000_000_000_000_000),
    };
    let (after, settlement) = stake.settle().unwrap();
    assert_eq!(settlement, Settlement { collateral_gain: 10, debt_loss: 100 });
    assert_eq!(
        after.deposit,
        Deposit {
            amount: 900,
            collateral_snapshot: 10_000_000_000_000_000,
            loss_snapshot: 100_000_000_000_000_000,
        }
    );
    assert_eq!(after.pool.collateral_balance, 10);
    // Settlement does not touch the pool's total: the offset already did.
    assert_eq!(after.pool.total_deposits, 1800);
    assert_eq!(after.settle(), Ok((after, Settlement { collateral_gain: 0, debt_loss: 0 })));
}

#[test]
fn settlement_of_an_empty_deposit_refreshes_the_snapshots() {
    let stake = Stake { deposit: no_deposit(), pool: pool_with(1800, 20, 77, 88) };
    let (after, settlement) = stake.settle().unwrap();
    assert_eq!(settlement, Settlement { collateral_gain: 0, debt_loss: 0 });
    assert_eq!(
        after.deposit,
        Deposit { amount: 0, collateral_snapshot: 77, loss_snapshot: 88 }
    );
    assert_eq!(after.pool, stake.pool);
}

#[test]
fn settlement_loss_is_flat_and_stops_at_zero() {
    // One and a half units lost per unit of deposit: the deposit is gone,
    // and it is not charged more than it held.
    let stake = Stake {
        deposit: settled_deposit(100),
        pool: pool_with(0, 0, 0, SCALE + SCALE / 2),
    };
    let (after, settlement) = stake.settle().unwrap();
    assert_eq!(settlement, Settlement { collateral_gain: 0, debt_loss: 100 });
    assert_eq!(after.deposit.amount, 0);
    // A loss too large for 128 bits takes the whole deposit too.
    let ruined = Stake {
        deposit: settled_deposit(u64::MAX),
        pool: pool_with(0, 0, 0, u128::MAX),
    };
    let (after, settlement) = ruined.settle().unwrap();
    assert_eq!(settlement.debt_loss, u64::MAX);
    assert_eq!(after.deposit.amount, 0);
}

#[test]
fn settlement_loss_after_a_top_up_is_charged_on_the_whole_deposit_since_the_snapshot() {
    // 1000 deposited, 10% lost and settled, 1000 more deposited, then 10% lost again:
    // the second loss is 10% of 1900.
    let start = Stake { deposit: no_deposit(), pool: empty_pool() };
    let (first, _) = start.deposit(1000).unwrap();
    let pool = first.pool.offset(100, 0).unwrap();
    let (second, settlement) = Stake { deposit: first.deposit, pool }.deposit(1000).unwrap();
    assert_eq!(settlement.debt_loss, 100);
    assert_eq!(second.deposit.amount, 1900);
    assert_eq!(second.pool.total_deposits, 1900);
    let pool = second.pool.offset(190, 0).unwrap();
    let (third, settlement) = Stake { deposit: second.deposit, pool }.settle().unwrap();
    assert_eq!(settlement.debt_loss, 190);
    assert_eq!(third.deposit.amount, 1710);
    assert_eq!(third.pool.total_deposits, 1710);
}

#[test]
fn settlement_fails_where_the_balance_does_not_hold_the_gain() {
    let stake = Stake {
        deposit: settled_deposit(1000),
        pool: pool_with(1800, 9, 10_000_000_000_000_000, 0),
    };
    assert_eq!(stake.settle(), Err(Error::Arithmetic));
    assert_eq!(stake.pending_collateral_gain(), Ok(10));
    let huge = Stake {
        deposit: settled_deposit(u64::MAX),
        pool: pool_with(0, u64::MAX, u128::MAX, 0),
    };
    assert_eq!(huge.settle(), Err(Error::Arithmetic));
    assert_eq!(huge.pending_collateral_gain(), Err(Error::Arithmetic));
}

#[test]
fn settlement_fails_where_a_snapshot_is_ahead_of_its_accumulator() {
    let ahead = Stake {
        deposit: Deposit { amount: 1, collateral_snapshot: 6, loss_snapshot: 0 },
        pool: pool_with(1, 0, 5, 0),
    };
    assert_eq!(ahead.settle(), Err(Error::Arithmetic));
    assert_eq!(ahead.pending_collateral_gain(), Err(Error::Arithmetic));
    let ahead = Stake {
        deposit: Deposit { amount: 1, collateral_snapshot: 0, loss_snapshot: 6 },
        pool: pool_with(1, 0, 0, 5),
    };
    assert_eq!(ahead.settle(), Err(Error::Arithmetic));
    assert_eq!(ahead.pending_collateral_gain(), Ok(0));
}

#[test]
fn depositing_settles_first_and_adds_to_deposit_and_total() {
    let stake = Stake {
        deposit: settled_deposit(1000),
        pool: pool_with(1800, 20, 10_000_000_000_000_000, 100_000_000_000_000_000),
    };
    let (after, settlement) = stake.deposit(50).unwrap();
    assert_eq!(settlement, Settlement { collateral_gain: 10, debt_loss: 100 });
    assert_eq!(after.deposit.amount, 950);
    assert_eq!(after.pool.total_deposits, 1850);
    assert_eq!(after.pool.collateral_balance, 10);
    assert_eq!(after.deposit.collateral_snapshot, 10_000_000_000_000_000);
    assert_eq!(after.deposit.loss_snapshot, 100_000_000_000_000_000);
}

#[test]
fn depositing_refusals() {
    let stake = Stake { deposit: settled_deposit(1000), pool: pool_with(1000, 0, 0, 0) };
    assert_eq!(stake.deposit(0), Err(Error::ZeroAmount));
    assert_eq!(stake.deposit(u64::MAX), Err(Error::Arithmetic));
    let crowded = Stake { deposit: no_deposit(), pool: pool_with(u64::MAX, 0, 0, 0) };
    assert_eq!(crowded.deposit(1), Err(Error::Arithmetic));
    let unsettled = Stake {
        deposit: settled_deposit(1000),
        pool: pool_with(1000, 0, SCALE, 0),
    };
    assert_eq!(unsettled.deposit(1), Err(Error::Arithmetic));
}

#[test]
fn withdrawing_settles_first_and_takes_from_deposit_and_total() {
    let stake = Stake {
        deposit: settled_deposit(1000),
        pool: pool_with(1800, 20, 10_000_000_000_000_000, 100_000_000_000_000_000),
    };
    let (after, settlement) = stake.withdraw(900).unwrap();
    assert_eq!(settlement, Settlement { collateral_gain: 10, debt_loss: 100 });
    assert_eq!(after.deposit.amount, 0);
    assert_eq!(after.pool.total_deposits, 900);
    let (same, _) = stake.withdraw(0).unwrap();
    assert_eq!(same.deposit.amount, 900);
    assert_eq!(same.pool.total_deposits, 1800);
}

#[test]
fn withdrawing_refusals() {
    let stake = Stake {
        deposit: settled_deposit(1000),
        pool: pool_with(1800, 20, 10_000_000_000_000_000, 100_000_000_000_000_000),
    };
    assert_eq!(stake.withdraw(1001), Err(Error::InsufficientDeposit));
    // The recorded deposit holds 1000, but 100 of it are lost.
    assert_eq!(stake.withdraw(1000), Err(Error::Arithmetic));
    assert_eq!(stake.withdraw(901), Err(Error::Arithmetic));
    let nobody = Stake { deposit: no_deposit(), pool: stake.pool };
    assert_eq!(nobody.withdraw(1), Err(Error::InsufficientDeposit));
    let short = Stake { deposit: settled_deposit(1000), pool: pool_with(999, 0, 0, 0) };
    assert_eq!(short.withdraw(1000), Err(Error::Arithmetic));
}

#[test]
fn shares_are_proportional_up_to_rounding() {
    // 10 units over deposits of 1 and 2: 3.33.. and 6.66.., rounded down.
    let pool = pool_with(3, 0, 0, 0).offset(0, 10).unwrap();
    let gain = |amount: u64| {
        Stake { deposit: settled_deposit(amount), pool }.pending_collateral_gain().unwrap()
    };
    assert_eq!(gain(1), 3);
    assert_eq!(gain(2), 6);
    assert_eq!(10 * 1 / 3, 3);
    assert_eq!(10 * 2 / 3, 6);

    // 7 units over 3 and 4.
    let pool = pool_with(7, 0, 0, 0).offset(0, 7).unwrap();
    let gain = |amount: u64| {
        Stake { deposit: settled_deposit(amount), pool }.pending_collateral_gain().unwrap()
    };
    assert_eq!(gain(3), 3);
    assert_eq!(gain(4), 4);
}

#[test]
fn shares_of_very_large_deposits_round_by_more_than_one_unit() {
    let deposit: u64 = 18_396_902_574_853_843_320;
    let total: u64 = 18_402_238_474_755_023_072;
    let collateral: u64 = 306_342;
    let pool = pool_with(total, 0, 0, 0).offset(0, collateral).unwrap();
    let gain = Stake { deposit: settled_deposit(deposit), pool }
        .pending_collateral_gain()
        .unwrap();
    let exact = (collateral as u128 * deposit as u128 / total as u128) as u64;
    assert_eq!(exact, 306_253);
    assert_eq!(gain, 306_234);
    // Short by 19: one, and one for each of the 18 whole scale factors deposited.
    assert_eq!(exact - gain, 1 + (deposit as u128 / SCALE) as u64);
}
