//! One trove and the ledger totals it is counted in: what every trove
//! operation reads and writes. Each operation is a function from a position,
//! the time and the call's arguments to the position that follows or to the
//! fault with which the call is refused.
//!
//! Interest is simple, not compounding, and accrues whenever the trove is
//! touched. The collateral ratio is enforced when debt rises or collateral
//! leaves, not in between: it may fall later, by price or by interest, and
//! that is what liquidation is for.

use crate::error::Error;
use crate::math::{
    accrued_interest, borrowing_fee, liquidation_penalty, ratio, spec_borrowing_fee,
    spec_collateral_ratio, spec_interest, spec_liquidation_penalty,
};
use vstd::prelude::*;

verus! {

/// The lowest collateral ratio, in percent, that a trove may be left with
/// when debt rises or collateral leaves.
pub const MIN_COLLATERAL_RATIO: u64 = 150;

/// The collateral ratio, in percent, below which a trove can be liquidated.
pub const LIQUIDATION_RATIO: u64 = 110;

/// The least debt a trove is opened with: 100 tokens.
pub const MIN_DEBT: u64 = 100_000_000_000;

/// The lowest annual interest rate: 0.5%.
pub const MIN_INTEREST_RATE: u64 = 5_000_000;

/// The highest annual interest rate: 200 times the debt a year.
pub const MAX_INTEREST_RATE: u64 = 200_000_000_000;

/// The lowest redemption fee rate: 0.5%.
pub const REDEMPTION_FEE_FLOOR: u64 = 5_000_000;

/// One account's collateralised debt position.
#[derive(Clone, Copy, Debug, PartialEq, Eq, Structural)]
pub struct Trove {
    pub collateral: u64,
    pub debt: u64,
    pub interest_rate: u64,
    pub last_update: u64,
    pub active: bool,
}

/// The ledger's running totals over its active troves.
#[derive(Clone, Copy, Debug, PartialEq, Eq, Structural)]
pub struct Totals {
    pub collateral: u64,
    pub debt: u64,
    pub troves: u64,
}

/// A trove together with the totals it is counted in.
#[derive(Clone, Copy, Debug, PartialEq, Eq, Structural)]
pub struct Position {
    pub trove: Trove,
    pub totals: Totals,
}

/// What a liquidation hands to the stability pool, and what it keeps back.
#[derive(Clone, Copy, Debug, PartialEq, Eq, Structural)]
pub struct Seizure {
    /// The trove's whole debt, to be offset by the pool.
    pub debt: u64,
    /// The collateral that goes to the pool: all of it but the penalty.
    pub collateral: u64,
    /// The collateral kept back.
    pub penalty: u64,
}

/// The record of an account that never opened a trove.
pub open spec fn spec_no_trove() -> Trove {
    Trove { collateral: 0, debt: 0, interest_rate: 0, last_update: 0, active: false }
}

/// The record of an account that never opened a trove.
pub fn no_trove() -> (t: Trove)
    ensures
        t == spec_no_trove(),
{
    Trove { collateral: 0, debt: 0, interest_rate: 0, last_update: 0, active: false }
}

/// The ratio test that guards every rise of debt and every release of
/// collateral: `price` must be at hand, and `collateral` at `price` must cover
/// `debt` at `MIN_COLLATERAL_RATIO` percent. With no debt there is no ratio to
/// compute, which is an arithmetic fault.
pub open spec fn spec_check_ratio(collateral: u64, debt: u64, price: Option<u64>) -> Result<
    (),
    Error,
> {
    match price {
        None => Err(Error::StalePrice),
        Some(p) => if debt == 0 {
            Err(Error::Arithmetic)
        } else if spec_collateral_ratio(collateral as nat, debt as nat, p as nat)
            < MIN_COLLATERAL_RATIO {
            Err(Error::BelowMinimumRatio)
        } else {
            Ok(())
        },
    }
}

/// The ratio test that guards every rise of debt and every release of collateral.
pub fn check_ratio(collateral: u64, debt: u64, price: Option<u64>) -> (r: Result<(), Error>)
    ensures
        r == spec_check_ratio(collateral, debt, price),
{
    match price {
        None => Err(Error::StalePrice),
        Some(p) => if debt == 0 {
            Err(Error::Arithmetic)
        } else if ratio(collateral, debt, p) < MIN_COLLATERAL_RATIO as u128 {
            Err(Error::BelowMinimumRatio)
        } else {
            Ok(())
        },
    }
}

/// Whether `trove` can be liquidated at `price`: it is active, owes debt, and
/// its collateral ratio is below `LIQUIDATION_RATIO` percent. The price is
/// needed only for an active trove with debt.
pub open spec fn spec_is_liquidatable(trove: Trove, price: Option<u64>) -> Result<bool, Error> {
    if !trove.active || trove.debt == 0 {
        Ok(false)
    } else {
        match price {
            None => Err(Error::StalePrice),
            Some(p) => Ok(
                spec_collateral_ratio(trove.collateral as nat, trove.debt as nat, p as nat)
                    < LIQUIDATION_RATIO,
            ),
        }
    }
}

/// Whether `trove` can be liquidated at `price`. With a price at hand the
/// answer is yes exactly for an active trove with debt whose collateral
/// ratio is below `LIQUIDATION_RATIO` percent; nothing else is looked at.
pub fn is_liquidatable(trove: Trove, price: Option<u64>) -> (r: Result<bool, Error>)
    ensures
        r == spec_is_liquidatable(trove, price),
        price matches Some(p) ==> r == Ok::<bool, Error>(
            trove.active && trove.debt > 0 && spec_collateral_ratio(
                trove.collateral as nat,
                trove.debt as nat,
                p as nat,
            ) < LIQUIDATION_RATIO,
        ),
{
    if !trove.active || trove.debt == 0 {
        return Ok(false);
    }
    match price {
        None => Err(Error::StalePrice),
        Some(p) => Ok(ratio(trove.collateral, trove.debt, p) < LIQUIDATION_RATIO as u128),
    }
}

/// The collateral ratio of a holding of `collateral` against `debt`, in
/// percent; zero where there is no debt.
pub open spec fn spec_ratio_of(collateral: u64, debt: u64, price: Option<u64>) -> Result<
    u64,
    Error,
> {
    if debt == 0 {
        Ok(0)
    } else {
        match price {
            None => Err(Error::StalePrice),
            Some(p) => if spec_collateral_ratio(collateral as nat, debt as nat, p as nat)
                > u64::MAX {
                Err(Error::Arithmetic)
            } else {
                Ok(spec_collateral_ratio(collateral as nat, debt as nat, p as nat) as u64)
            },
        }
    }
}

/// The collateral ratio of a holding of `collateral` against `debt`, in
/// percent; zero where there is no debt.
pub fn ratio_of(collateral: u64, debt: u64, price: Option<u64>) -> (r: Result<u64, Error>)
    ensures
        r == spec_ratio_of(collateral, debt, price),
{
    if debt == 0 {
        return Ok(0);
    }
    match price {
        None => Err(Error::StalePrice),
        Some(p) => {
            let percent: u128 = ratio(collateral, debt, p);
            if percent > u64::MAX as u128 {
                Err(Error::Arithmetic)
            } else {
                Ok(percent as u64)
            }
        },
    }
}

/// The redemption fee rate: the base rate, but no less than the floor.
pub open spec fn spec_redemption_fee(base_rate: u64) -> u64 {
    if base_rate > REDEMPTION_FEE_FLOOR {
        base_rate
    } else {
        REDEMPTION_FEE_FLOOR
    }
}

/// The redemption fee rate: the base rate, but no less than the floor.
pub fn redemption_fee(base_rate: u64) -> (r: u64)
    ensures
        r == spec_redemption_fee(base_rate),
{
    if base_rate > REDEMPTION_FEE_FLOOR {
        base_rate
    } else {
        REDEMPTION_FEE_FLOOR
    }
}

/// Ratio enforcement at opening. Where nothing else stands in the way (no
/// trove is open, the arguments are admissible, and the figures to be
/// recorded fit), a trove is opened if and only if its collateral covers the
/// debt with its fee at `MIN_COLLATERAL_RATIO` percent; otherwise the call
/// is refused for the ratio.
pub proof fn lemma_open_by_ratio(
    pre: Position,
    now: u64,
    price: u64,
    collateral: u64,
    debt: u64,
    rate: u64,
)
    requires
        !pre.trove.active,
        collateral > 0,
        debt >= MIN_DEBT,
        MIN_INTEREST_RATE <= rate <= MAX_INTEREST_RATE,
        pre.totals.collateral + collateral <= u64::MAX,
        pre.totals.debt + debt + spec_borrowing_fee(debt as nat) <= u64::MAX,
        pre.totals.troves < u64::MAX,
    ensures
        pre.spec_open_trove(now, Some(price), collateral, debt, rate) is Ok
            <==> spec_collateral_ratio(
            collateral as nat,
            debt as nat + spec_borrowing_fee(debt as nat),
            price as nat,
        ) >= MIN_COLLATERAL_RATIO,
        pre.spec_open_trove(now, Some(price), collateral, debt, rate) is Err
            ==> pre.spec_open_trove(now, Some(price), collateral, debt, rate) == Err::<
            Position,
            Error,
        >(Error::BelowMinimumRatio),
{
}

/// Ratio enforcement at borrowing. Where nothing else stands in the way (the
/// trove is active, accrual goes through, and the new debt is not zero and
/// fits), the loan is made if and only if the collateral covers the new
/// debt at `MIN_COLLATERAL_RATIO` percent; otherwise the call is refused for
/// the ratio.
pub proof fn lemma_borrow_by_ratio(pre: Position, now: u64, price: u64, amount: u64)
    requires
        pre.trove.active,
        pre.spec_accrue(now) is Ok,
        pre.spec_accrue(now)->Ok_0.trove.debt + amount + spec_borrowing_fee(amount as nat) > 0,
        pre.spec_accrue(now)->Ok_0.totals.debt + amount + spec_borrowing_fee(amount as nat)
            <= u64::MAX,
        pre.spec_accrue(now)->Ok_0.trove.debt + amount + spec_borrowing_fee(amount as nat)
            <= u64::MAX,
    ensures
        pre.spec_borrow(now, Some(price), amount) is Ok <==> spec_collateral_ratio(
            pre.trove.collateral as nat,
            pre.spec_accrue(now)->Ok_0.trove.debt as nat + amount as nat + spec_borrowing_fee(
                amount as nat,
            ),
            price as nat,
        ) >= MIN_COLLATERAL_RATIO,
        pre.spec_borrow(now, Some(price), amount) is Err ==> pre.spec_borrow(
            now,
            Some(price),
            amount,
        ) == Err::<Position, Error>(Error::BelowMinimumRatio),
{
}

/// Ratio enforcement at withdrawal. Where nothing else stands in the way
/// (the trove is active and holds the amount, and accrual goes through), a
/// trove without debt gives up its collateral whatever the price, and a
/// trove with debt does so if and only if what stays covers the debt at
/// `MIN_COLLATERAL_RATIO` percent; otherwise the call is refused for the
/// ratio.
pub proof fn lemma_withdraw_by_ratio(pre: Position, now: u64, price: u64, amount: u64)
    requires
        pre.trove.active,
        amount <= pre.trove.collateral,
        pre.spec_accrue(now) is Ok,
        amount <= pre.spec_accrue(now)->Ok_0.totals.collateral,
    ensures
        pre.spec_withdraw_collateral(now, Some(price), amount) is Ok <==> pre.spec_accrue(
            now,
        )->Ok_0.trove.debt == 0 || spec_collateral_ratio(
            (pre.trove.collateral - amount) as nat,
            pre.spec_accrue(now)->Ok_0.trove.debt as nat,
            price as nat,
        ) >= MIN_COLLATERAL_RATIO,
        pre.spec_withdraw_collateral(now, Some(price), amount) is Err
            ==> pre.spec_withdraw_collateral(now, Some(price), amount) == Err::<Position, Error>(
            Error::BelowMinimumRatio,
        ),
        pre.spec_accrue(now)->Ok_0.trove.debt == 0 ==> pre.spec_withdraw_collateral(
            now,
            None,
            amount,
        ) is Ok,
{
}

/// No interest over no time. Every operation that succeeds at `now` on a
/// trove that stays active stamps the trove with `now`; at that same `now` no
/// interest is due on the position it leaves, and accrual leaves it as it is.
/// So a second operation at the same timestamp accrues nothing.
pub proof fn lemma_same_time_accrues_nothing(
    pre: Position,
    now: u64,
    price: Option<u64>,
    collateral: u64,
    amount: u64,
    rate: u64,
)
    ensures
        pre.spec_accrue(now) matches Ok(post) ==> post.settled_at(now),
        pre.spec_open_trove(now, price, collateral, amount, rate) matches Ok(post)
            ==> post.settled_at(now),
        pre.spec_adjust_interest_rate(now, rate) matches Ok(post) ==> post.settled_at(now),
        pre.spec_add_collateral(now, amount) matches Ok(post) ==> post.settled_at(now),
        pre.spec_withdraw_collateral(now, price, amount) matches Ok(post) ==> post.settled_at(now),
        pre.spec_borrow(now, price, amount) matches Ok(post) ==> post.settled_at(now),
        pre.spec_repay(now, amount) matches Ok(done) ==> done.0.settled_at(now),
        pre.spec_close_trove(now) matches Ok(done) ==> done.0.settled_at(now),
{
    assert forall|debt: nat, r: nat| #[trigger] spec_interest(debt, r, 0) == 0 by {
        assert(debt * r * 0 == 0) by (nonlinear_arith);
    }
}

impl Position {
    /// The interest that has accrued on the trove's debt by `now`.
    pub open spec fn interest_due(self, now: u64) -> nat {
        spec_interest(
            self.trove.debt as nat,
            self.trove.interest_rate as nat,
            (now - self.trove.last_update) as nat,
        )
    }

    /// The trove was last touched at `now`: no interest is due at `now`, and
    /// accrual at `now` changes nothing.
    pub open spec fn settled_at(self, now: u64) -> bool {
        &&& self.trove.last_update == now
        &&& self.interest_due(now) == 0
        &&& self.spec_accrue(now) == Ok::<Position, Error>(self)
    }

    /// Accrual: the interest due is added to the trove's debt and to the total
    /// debt, and the trove is stamped with `now`, whether or not any interest
    /// was due. A clock that runs backwards, or a debt that no longer fits,
    /// is an arithmetic fault.
    pub open spec fn spec_accrue(self, now: u64) -> Result<Position, Error> {
        if now < self.trove.last_update {
            Err(Error::Arithmetic)
        } else if self.trove.debt + self.interest_due(now) > u64::MAX || self.totals.debt
            + self.interest_due(now) > u64::MAX {
            Err(Error::Arithmetic)
        } else {
            Ok(
                Position {
                    trove: Trove {
                        debt: (self.trove.debt + self.interest_due(now)) as u64,
                        last_update: now,
                        ..self.trove
                    },
                    totals: Totals {
                        debt: (self.totals.debt + self.interest_due(now)) as u64,
                        ..self.totals
                    },
                },
            )
        }
    }

    /// Brings the trove's debt up to `now`.
    pub fn accrue(self, now: u64) -> (r: Result<Position, Error>)
        ensures
            r == self.spec_accrue(now),
    {
        if now < self.trove.last_update {
            return Err(Error::Arithmetic);
        }
        let elapsed: u64 = now - self.trove.last_update;
        let interest: u64 = match accrued_interest(
            self.trove.debt,
            self.trove.interest_rate,
            elapsed,
        ) {
            Some(i) => i,
            None => {
                return Err(Error::Arithmetic);
            },
        };
        let debt: u64 = match self.trove.debt.checked_add(interest) {
            Some(d) => d,
            None => {
                return Err(Error::Arithmetic);
            },
        };
        let total_debt: u64 = match self.totals.debt.checked_add(interest) {
            Some(d) => d,
            None => {
                return Err(Error::Arithmetic);
            },
        };
        Ok(
            Position {
                trove: Trove { debt, last_update: now, ..self.trove },
                totals: Totals { debt: total_debt, ..self.totals },
            },
        )
    }

    /// Opening a trove with `collateral`, `debt` and `rate`. The recorded debt
    /// is `debt` plus the borrowing fee on it, and it is the recorded debt
    /// that the collateral must cover.
    pub open spec fn spec_open_trove(
        self,
        now: u64,
        price: Option<u64>,
        collateral: u64,
        debt: u64,
        rate: u64,
    ) -> Result<Position, Error> {
        let owed = debt + spec_borrowing_fee(debt as nat);
        if self.trove.active {
            Err(Error::TroveExists)
        } else if collateral == 0 {
            Err(Error::ZeroCollateral)
        } else if debt < MIN_DEBT {
            Err(Error::DebtBelowMinimum)
        } else if rate < MIN_INTEREST_RATE {
            Err(Error::RateTooLow)
        } else if rate > MAX_INTEREST_RATE {
            Err(Error::RateTooHigh)
        } else if owed > u64::MAX {
            Err(Error::Arithmetic)
        } else if spec_check_ratio(collateral, owed as u64, price) is Err {
            Err(spec_check_ratio(collateral, owed as u64, price)->Err_0)
        } else if self.totals.collateral + collateral > u64::MAX || self.totals.debt + owed
            > u64::MAX || self.totals.troves + 1 > u64::MAX {
            Err(Error::Arithmetic)
        } else {
            Ok(
                Position {
                    trove: Trove {
                        collateral,
                        debt: owed as u64,
                        interest_rate: rate,
                        last_update: now,
                        active: true,
                    },
                    totals: Totals {
                        collateral: (self.totals.collateral + collateral) as u64,
                        debt: (self.totals.debt + owed) as u64,
                        troves: (self.totals.troves + 1) as u64,
                    },
                },
            )
        }
    }

    /// Opens a trove.
    pub fn open_trove(
        self,
        now: u64,
        price: Option<u64>,
        collateral: u64,
        debt: u64,
        rate: u64,
    ) -> (r: Result<Position, Error>)
        ensures
            r == self.spec_open_trove(now, price, collateral, debt, rate),
    {
        if self.trove.active {
            return Err(Error::TroveExists);
        }
        if collateral == 0 {
            return Err(Error::ZeroCollateral);
        }
        if debt < MIN_DEBT {
            return Err(Error::DebtBelowMinimum);
        }
        if rate < MIN_INTEREST_RATE {
            return Err(Error::RateTooLow);
        }
        if rate > MAX_INTEREST_RATE {
            return Err(Error::RateTooHigh);
        }
        let fee: u64 = borrowing_fee(debt);
        let owed: u64 = match debt.checked_add(fee) {
            Some(d) => d,
            None => {
                return Err(Error::Arithmetic);
            },
        };
        match check_ratio(collateral, owed, price) {
            Err(e) => {
                return Err(e);
            },
            Ok(()) => {},
        }
        let total_collateral: u64 = match self.totals.collateral.checked_add(collateral) {
            Some(c) => c,
            None => {
                return Err(Error::Arithmetic);
            },
        };
        let total_debt: u64 = match self.totals.debt.checked_add(owed) {
            Some(d) => d,
            None => {
                return Err(Error::Arithmetic);
            },
        };
        let troves: u64 = match self.totals.troves.checked_add(1) {
            Some(n) => n,
            None => {
                return Err(Error::Arithmetic);
            },
        };
        Ok(
            Position {
                trove: Trove {
                    collateral,
                    debt: owed,
                    interest_rate: rate,
                    last_update: now,
                    active: true,
                },
                totals: Totals { collateral: total_collateral, debt: total_debt, troves },
            },
        )
    }

    /// Changing the trove's interest rate to `rate`: interest accrues at the
    /// old rate up to `now` first.
    pub open spec fn spec_adjust_interest_rate(self, now: u64, rate: u64) -> Result<
        Position,
        Error,
    > {
        if !self.trove.active {
            Err(Error::NoActiveTrove)
        } else if rate < MIN_INTEREST_RATE {
            Err(Error::RateTooLow)
        } else if rate > MAX_INTEREST_RATE {
            Err(Error::RateTooHigh)
        } else {
            match self.spec_accrue(now) {
                Err(e) => Err(e),
                Ok(p) => Ok(Position { trove: Trove { interest_rate: rate, ..p.trove }, ..p }),
            }
        }
    }

    /// Changes the trove's interest rate.
    pub fn adjust_interest_rate(self, now: u64, rate: u64) -> (r: Result<Position, Error>)
        ensures
            r == self.spec_adjust_interest_rate(now, rate),
    {
        if !self.trove.active {
            return Err(Error::NoActiveTrove);
        }
        if rate < MIN_INTEREST_RATE {
            return Err(Error::RateTooLow);
        }
        if rate > MAX_INTEREST_RATE {
            return Err(Error::RateTooHigh);
        }
        match self.accrue(now) {
            Err(e) => Err(e),
            Ok(p) => Ok(Position { trove: Trove { interest_rate: rate, ..p.trove }, ..p }),
        }
    }

    /// Adding `amount` of collateral, after accrual.
    pub open spec fn spec_add_collateral(self, now: u64, amount: u64) -> Result<Position, Error> {
        if !self.trove.active {
            Err(Error::NoActiveTrove)
        } else {
            match self.spec_accrue(now) {
                Err(e) => Err(e),
                Ok(p) => if p.trove.collateral + amount > u64::MAX || p.totals.collateral + amount
                    > u64::MAX {
                    Err(Error::Arithmetic)
                } else {
                    Ok(
                        Position {
                            trove: Trove {
                                collateral: (p.trove.collateral + amount) as u64,
                                ..p.trove
                            },
                            totals: Totals {
                                collateral: (p.totals.collateral + amount) as u64,
                                ..p.totals
                            },
                        },
                    )
                },
            }
        }
    }

    /// Adds collateral.
    pub fn add_collateral(self, now: u64, amount: u64) -> (r: Result<Position, Error>)
        ensures
            r == self.spec_add_collateral(now, amount),
    {
        if !self.trove.active {
            return Err(Error::NoActiveTrove);
        }
        let p: Position = match self.accrue(now) {
            Err(e) => {
                return Err(e);
            },
            Ok(p) => p,
        };
        let collateral: u64 = match p.trove.collateral.checked_add(amount) {
            Some(c) => c,
            None => {
                return Err(Error::Arithmetic);
            },
        };
        let total: u64 = match p.totals.collateral.checked_add(amount) {
            Some(c) => c,
            None => {
                return Err(Error::Arithmetic);
            },
        };
        Ok(
            Position {
                trove: Trove { collateral, ..p.trove },
                totals: Totals { collateral: total, ..p.totals },
            },
        )
    }

    /// Withdrawing `amount` of collateral, after accrual. Where the trove
    /// owes debt, what stays must cover it; a trove without debt is not tested
    /// and needs no price.
    pub open spec fn spec_withdraw_collateral(
        self,
        now: u64,
        price: Option<u64>,
        amount: u64,
    ) -> Result<Position, Error> {
        if !self.trove.active {
            Err(Error::NoActiveTrove)
        } else if self.trove.collateral < amount {
            Err(Error::InsufficientCollateral)
        } else {
            match self.spec_accrue(now) {
                Err(e) => Err(e),
                Ok(p) => {
                    let remaining = (p.trove.collateral - amount) as u64;
                    if p.trove.debt > 0 && spec_check_ratio(remaining, p.trove.debt, price)
                        is Err {
                        Err(spec_check_ratio(remaining, p.trove.debt, price)->Err_0)
                    } else if p.totals.collateral < amount {
                        Err(Error::Arithmetic)
                    } else {
                        Ok(
                            Position {
                                trove: Trove { collateral: remaining, ..p.trove },
                                totals: Totals {
                                    collateral: (p.totals.collateral - amount) as u64,
                                    ..p.totals
                                },
                            },
                        )
                    }
                },
            }
        }
    }

    /// Withdraws collateral.
    pub fn withdraw_collateral(self, now: u64, price: Option<u64>, amount: u64) -> (r: Result<
        Position,
        Error,
    >)
        ensures
            r == self.spec_withdraw_collateral(now, price, amount),
    {
        if !self.trove.active {
            return Err(Error::NoActiveTrove);
        }
        if self.trove.collateral < amount {
            return Err(Error::InsufficientCollateral);
        }
        let p: Position = match self.accrue(now) {
            Err(e) => {
                return Err(e);
            },
            Ok(p) => p,
        };
        let remaining: u64 = p.trove.collateral - amount;
        if p.trove.debt > 0 {
            match check_ratio(remaining, p.trove.debt, price) {
                Err(e) => {
                    return Err(e);
                },
                Ok(()) => {},
            }
        }
        let total: u64 = match p.totals.collateral.checked_sub(amount) {
            Some(c) => c,
            None => {
                return Err(Error::Arithmetic);
            },
        };
        Ok(
            Position {
                trove: Trove { collateral: remaining, ..p.trove },
                totals: Totals { collateral: total, ..p.totals },
            },
        )
    }

    /// Borrowing `amount` more, after accrual. The debt rises by `amount` and
    /// the borrowing fee on it, and the collateral must cover the new debt.
    pub open spec fn spec_borrow(self, now: u64, price: Option<u64>, amount: u64) -> Result<
        Position,
        Error,
    > {
        if !self.trove.active {
            Err(Error::NoActiveTrove)
        } else {
            match self.spec_accrue(now) {
                Err(e) => Err(e),
                Ok(p) => {
                    let added = amount + spec_borrowing_fee(amount as nat);
                    if p.trove.debt + added > u64::MAX {
                        Err(Error::Arithmetic)
                    } else if spec_check_ratio(
                        p.trove.collateral,
                        (p.trove.debt + added) as u64,
                        price,
                    ) is Err {
                        Err(
                            spec_check_ratio(
                                p.trove.collateral,
                                (p.trove.debt + added) as u64,
                                price,
                            )->Err_0,
                        )
                    } else if p.totals.debt + added > u64::MAX {
                        Err(Error::Arithmetic)
                    } else {
                        Ok(
                            Position {
                                trove: Trove { debt: (p.trove.debt + added) as u64, ..p.trove },
                                totals: Totals {
                                    debt: (p.totals.debt + added) as u64,
                                    ..p.totals
                                },
                            },
                        )
                    }
                },
            }
        }
    }

    /// Borrows more.
    pub fn borrow(self, now: u64, price: Option<u64>, amount: u64) -> (r: Result<Position, Error>)
        ensures
            r == self.spec_borrow(now, price, amount),
    {
        if !self.trove.active {
            return Err(Error::NoActiveTrove);
        }
        let p: Position = match self.accrue(now) {
            Err(e) => {
                return Err(e);
            },
            Ok(p) => p,
        };
        let fee: u64 = borrowing_fee(amount);
        let added: u64 = match amount.checked_add(fee) {
            Some(a) => a,
            None => {
                return Err(Error::Arithmetic);
            },
        };
        let debt: u64 = match p.trove.debt.checked_add(added) {
            Some(d) => d,
            None => {
                return Err(Error::Arithmetic);
            },
        };
        match check_ratio(p.trove.collateral, debt, price) {
            Err(e) => {
                return Err(e);
            },
            Ok(()) => {},
        }
        let total: u64 = match p.totals.debt.checked_add(added) {
            Some(d) => d,
            None => {
                return Err(Error::Arithmetic);
            },
        };
        Ok(
            Position {
                trove: Trove { debt, ..p.trove },
                totals: Totals { debt: total, ..p.totals },
            },
        )
    }

    /// What a repayment of `amount` takes off the debt: `amount`, but no more
    /// than is owed after accrual.
    pub open spec fn spec_repaid(self, now: u64, amount: u64) -> u64
        recommends
            self.spec_accrue(now) is Ok,
    {
        let owed = self.spec_accrue(now)->Ok_0.trove.debt;
        if amount > owed {
            owed
        } else {
            amount
        }
    }

    /// Repaying `amount`, after accrual.
    pub open spec fn spec_repay(self, now: u64, amount: u64) -> Result<(Position, u64), Error> {
        if !self.trove.active {
            Err(Error::NoActiveTrove)
        } else {
            match self.spec_accrue(now) {
                Err(e) => Err(e),
                Ok(p) => {
                    let repaid = self.spec_repaid(now, amount);
                    if p.totals.debt < repaid {
                        Err(Error::Arithmetic)
                    } else {
                        Ok(
                            (
                                Position {
                                    trove: Trove {
                                        debt: (p.trove.debt - repaid) as u64,
                                        ..p.trove
                                    },
                                    totals: Totals {
                                        debt: (p.totals.debt - repaid) as u64,
                                        ..p.totals
                                    },
                                },
                                repaid,
                            ),
                        )
                    }
                },
            }
        }
    }

    /// Repays debt; gives the position that follows and the amount taken off
    /// the debt.
    pub fn repay(self, now: u64, amount: u64) -> (r: Result<(Position, u64), Error>)
        ensures
            r == self.spec_repay(now, amount),
    {
        if !self.trove.active {
            return Err(Error::NoActiveTrove);
        }
        let p: Position = match self.accrue(now) {
            Err(e) => {
                return Err(e);
            },
            Ok(p) => p,
        };
        let repaid: u64 = if amount > p.trove.debt {
            p.trove.debt
        } else {
            amount
        };
        let total: u64 = match p.totals.debt.checked_sub(repaid) {
            Some(d) => d,
            None => {
                return Err(Error::Arithmetic);
            },
        };
        Ok(
            (
                Position {
                    trove: Trove { debt: p.trove.debt - repaid, ..p.trove },
                    totals: Totals { debt: total, ..p.totals },
                },
                repaid,
            ),
        )
    }

    /// Closing the trove, after accrual: it must owe nothing. The trove is
    /// emptied and leaves the totals; its collateral goes back to the owner.
    pub open spec fn spec_close_trove(self, now: u64) -> Result<(Position, u64), Error> {
        if !self.trove.active {
            Err(Error::NoActiveTrove)
        } else {
            match self.spec_accrue(now) {
                Err(e) => Err(e),
                Ok(p) => if p.trove.debt != 0 {
                    Err(Error::DebtOutstanding)
                } else if p.totals.collateral < p.trove.collateral || p.totals.troves < 1 {
                    Err(Error::Arithmetic)
                } else {
                    Ok(
                        (
                            Position {
                                trove: Trove {
                                    collateral: 0,
                                    debt: 0,
                                    active: false,
                                    ..p.trove
                                },
                                totals: Totals {
                                    collateral: (p.totals.collateral - p.trove.collateral) as u64,
                                    troves: (p.totals.troves - 1) as u64,
                                    ..p.totals
                                },
                            },
                            p.trove.collateral,
                        ),
                    )
                },
            }
        }
    }

    /// Closes the trove; gives the position that follows and the collateral
    /// that goes back to the owner.
    pub fn close_trove(self, now: u64) -> (r: Result<(Position, u64), Error>)
        ensures
            r == self.spec_close_trove(now),
    {
        if !self.trove.active {
            return Err(Error::NoActiveTrove);
        }
        let p: Position = match self.accrue(now) {
            Err(e) => {
                return Err(e);
            },
            Ok(p) => p,
        };
        if p.trove.debt != 0 {
            return Err(Error::DebtOutstanding);
        }
        let total: u64 = match p.totals.collateral.checked_sub(p.trove.collateral) {
            Some(c) => c,
            None => {
                return Err(Error::Arithmetic);
            },
        };
        let troves: u64 = match p.totals.troves.checked_sub(1) {
            Some(n) => n,
            None => {
                return Err(Error::Arithmetic);
            },
        };
        Ok(
            (
                Position {
                    trove: Trove { collateral: 0, debt: 0, active: false, ..p.trove },
                    totals: Totals { collateral: total, troves, ..p.totals },
                },
                p.trove.collateral,
            ),
        )
    }

    /// What a liquidation of this trove seizes.
    pub open spec fn spec_seizure(self) -> Seizure {
        let penalty = spec_liquidation_penalty(self.trove.collateral as nat);
        Seizure {
            debt: self.trove.debt,
            collateral: (self.trove.collateral - penalty) as u64,
            penalty: penalty as u64,
        }
    }

    /// Liquidating the trove at `price`: it must be liquidatable. The trove
    /// is emptied, whole, and leaves the totals. No interest accrues first.
    pub open spec fn spec_liquidate(self, price: Option<u64>) -> Result<
        (Position, Seizure),
        Error,
    > {
        match spec_is_liquidatable(self.trove, price) {
            Err(e) => Err(e),
            Ok(false) => Err(Error::NotLiquidatable),
            Ok(true) => if self.totals.collateral < self.trove.collateral || self.totals.debt
                < self.trove.debt || self.totals.troves < 1 {
                Err(Error::Arithmetic)
            } else {
                Ok(
                    (
                        Position {
                            trove: Trove { collateral: 0, debt: 0, active: false, ..self.trove },
                            totals: Totals {
                                collateral: (self.totals.collateral - self.trove.collateral) as u64,
                                debt: (self.totals.debt - self.trove.debt) as u64,
                                troves: (self.totals.troves - 1) as u64,
                            },
                        },
                        self.spec_seizure(),
                    ),
                )
            },
        }
    }

    /// Liquidates the trove; gives the position that follows and what was seized.
    pub fn liquidate(self, price: Option<u64>) -> (r: Result<(Position, Seizure), Error>)
        ensures
            r == self.spec_liquidate(price),
    {
        match is_liquidatable(self.trove, price) {
            Err(e) => {
                return Err(e);
            },
            Ok(false) => {
                return Err(Error::NotLiquidatable);
            },
            Ok(true) => {},
        }
        let penalty: u64 = liquidation_penalty(self.trove.collateral);
        let total_collateral: u64 = match self.totals.collateral.checked_sub(
            self.trove.collateral,
        ) {
            Some(c) => c,
            None => {
                return Err(Error::Arithmetic);
            },
        };
        let total_debt: u64 = match self.totals.debt.checked_sub(self.trove.debt) {
            Some(d) => d,
            None => {
                return Err(Error::Arithmetic);
            },
        };
        let troves: u64 = match self.totals.troves.checked_sub(1) {
            Some(n) => n,
            None => {
                return Err(Error::Arithmetic);
            },
        };
        Ok(
            (
                Position {
                    trove: Trove { collateral: 0, debt: 0, active: false, ..self.trove },
                    totals: Totals { collateral: total_collateral, debt: total_debt, troves },
                },
                Seizure {
                    debt: self.trove.debt,
                    collateral: self.trove.collateral - penalty,
                    penalty,
                },
            ),
        )
    }
}

} // verus!
