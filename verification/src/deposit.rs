//! One deposit and the pool figures it shares in: what every stability-pool
//! operation reads and writes.
//!
//! Liquidation proceeds are shared without visiting the depositors. An offset
//! adds, to two running accumulators, what one unit of deposit gains in
//! collateral and loses in debt; each deposit remembers the accumulators as
//! they stood when it was last settled, and settling it pays out the
//! difference times the deposit. The loss is taken off the deposit as a flat
//! amount, floored at zero.

use crate::error::Error;
use crate::math::{
    share, spec_per_unit, spec_proportion, spec_rounding, spec_share, unit_share, SCALE_FACTOR,
};
use vstd::arithmetic::div_mod::{
    lemma_div_pos_is_pos, lemma_fundamental_div_mod, lemma_mod_bound,
};
use vstd::prelude::*;

verus! {

/// One account's deposit and the accumulators as of its last settlement.
#[derive(Clone, Copy, Debug, PartialEq, Eq, Structural)]
pub struct Deposit {
    pub amount: u64,
    pub collateral_snapshot: u128,
    pub loss_snapshot: u128,
}

/// The pool's own figures.
#[derive(Clone, Copy, Debug, PartialEq, Eq, Structural)]
pub struct PoolTotals {
    /// The deposits less all debt the pool has absorbed. Absorbed debt leaves
    /// this figure at once, and each deposit only when it is next settled.
    pub total_deposits: u64,
    /// Collateral gained per unit of deposit, since the pool began, scaled.
    pub cumulative_collateral_per_unit: u128,
    /// Debt absorbed per unit of deposit, since the pool began, scaled.
    pub cumulative_debt_loss_per_unit: u128,
    /// Seized collateral that the pool holds and has not yet paid out.
    pub collateral_balance: u64,
    /// Interest revenue received and not yet distributed.
    pub pending_interest_revenue: u64,
}

/// A deposit together with the pool figures it shares in.
#[derive(Clone, Copy, Debug, PartialEq, Eq, Structural)]
pub struct Stake {
    pub deposit: Deposit,
    pub pool: PoolTotals,
}

/// What a settlement realised.
#[derive(Clone, Copy, Debug, PartialEq, Eq, Structural)]
pub struct Settlement {
    /// Collateral now owed to the depositor.
    pub collateral_gain: u64,
    /// Debt taken off the deposit.
    pub debt_loss: u64,
}

/// The record of an account that never deposited.
pub open spec fn spec_no_deposit() -> Deposit {
    Deposit { amount: 0, collateral_snapshot: 0, loss_snapshot: 0 }
}

/// The record of an account that never deposited.
pub fn no_deposit() -> (d: Deposit)
    ensures
        d == spec_no_deposit(),
{
    Deposit { amount: 0, collateral_snapshot: 0, loss_snapshot: 0 }
}

/// A pool with nothing in it.
pub open spec fn spec_empty_pool() -> PoolTotals {
    PoolTotals {
        total_deposits: 0,
        cumulative_collateral_per_unit: 0,
        cumulative_debt_loss_per_unit: 0,
        collateral_balance: 0,
        pending_interest_revenue: 0,
    }
}

/// A pool with nothing in it.
pub fn empty_pool() -> (p: PoolTotals)
    ensures
        p == spec_empty_pool(),
{
    PoolTotals {
        total_deposits: 0,
        cumulative_collateral_per_unit: 0,
        cumulative_debt_loss_per_unit: 0,
        collateral_balance: 0,
        pending_interest_revenue: 0,
    }
}

impl PoolTotals {
    /// Neither accumulator is higher in `self` than in `later`.
    pub open spec fn accumulators_at_most(self, later: PoolTotals) -> bool {
        self.cumulative_collateral_per_unit <= later.cumulative_collateral_per_unit
            && self.cumulative_debt_loss_per_unit <= later.cumulative_debt_loss_per_unit
    }

    /// Both accumulators are the same in `self` and in `other`.
    pub open spec fn same_accumulators(self, other: PoolTotals) -> bool {
        self.cumulative_collateral_per_unit == other.cumulative_collateral_per_unit
            && self.cumulative_debt_loss_per_unit == other.cumulative_debt_loss_per_unit
    }

    /// An offset of `debt` against `collateral`: the pool absorbs the debt and
    /// takes the collateral. Both accumulators rise by the amount per unit of
    /// the deposits as they stand before the offset; the collateral joins the
    /// balance; the debt leaves the total at once. A pool without deposits
    /// absorbs nothing and is left as it is.
    pub open spec fn spec_offset(self, debt: u64, collateral: u64) -> Result<PoolTotals, Error> {
        let total = self.total_deposits as nat;
        if self.total_deposits == 0 {
            Ok(self)
        } else if self.cumulative_collateral_per_unit + spec_per_unit(collateral as nat, total)
            > u128::MAX || self.cumulative_debt_loss_per_unit + spec_per_unit(debt as nat, total)
            > u128::MAX || self.collateral_balance + collateral > u64::MAX || self.total_deposits
            < debt {
            Err(Error::Arithmetic)
        } else {
            Ok(
                PoolTotals {
                    total_deposits: (self.total_deposits - debt) as u64,
                    cumulative_collateral_per_unit: (self.cumulative_collateral_per_unit
                        + spec_per_unit(collateral as nat, total)) as u128,
                    cumulative_debt_loss_per_unit: (self.cumulative_debt_loss_per_unit
                        + spec_per_unit(debt as nat, total)) as u128,
                    collateral_balance: (self.collateral_balance + collateral) as u64,
                    pending_interest_revenue: self.pending_interest_revenue,
                },
            )
        }
    }

    /// Absorbs `debt` and takes `collateral`. Neither accumulator ever falls.
    pub fn offset(self, debt: u64, collateral: u64) -> (r: Result<PoolTotals, Error>)
        ensures
            r == self.spec_offset(debt, collateral),
            r matches Ok(after) ==> self.accumulators_at_most(after),
    {
        if self.total_deposits == 0 {
            return Ok(self);
        }
        let gain_per_unit: u128 = unit_share(collateral, self.total_deposits);
        let loss_per_unit: u128 = unit_share(debt, self.total_deposits);
        let cumulative_collateral_per_unit: u128 =
            match self.cumulative_collateral_per_unit.checked_add(gain_per_unit) {
            Some(c) => c,
            None => {
                return Err(Error::Arithmetic);
            },
        };
        let cumulative_debt_loss_per_unit: u128 =
            match self.cumulative_debt_loss_per_unit.checked_add(loss_per_unit) {
            Some(c) => c,
            None => {
                return Err(Error::Arithmetic);
            },
        };
        let collateral_balance: u64 = match self.collateral_balance.checked_add(collateral) {
            Some(b) => b,
            None => {
                return Err(Error::Arithmetic);
            },
        };
        let total_deposits: u64 = match self.total_deposits.checked_sub(debt) {
            Some(t) => t,
            None => {
                return Err(Error::Arithmetic);
            },
        };
        Ok(
            PoolTotals {
                total_deposits,
                cumulative_collateral_per_unit,
                cumulative_debt_loss_per_unit,
                collateral_balance,
                pending_interest_revenue: self.pending_interest_revenue,
            },
        )
    }

    /// Receiving `amount` of interest revenue: it is added to what is pending.
    pub open spec fn spec_receive_interest(self, amount: u64) -> Result<PoolTotals, Error> {
        if self.pending_interest_revenue + amount > u64::MAX {
            Err(Error::Arithmetic)
        } else {
            Ok(
                PoolTotals {
                    pending_interest_revenue: (self.pending_interest_revenue + amount) as u64,
                    ..self
                },
            )
        }
    }

    /// Receives interest revenue.
    pub fn receive_interest(self, amount: u64) -> (r: Result<PoolTotals, Error>)
        ensures
            r == self.spec_receive_interest(amount),
    {
        match self.pending_interest_revenue.checked_add(amount) {
            Some(pending) => Ok(PoolTotals { pending_interest_revenue: pending, ..self }),
            None => Err(Error::Arithmetic),
        }
    }
}

/// Fair shares. Where `collateral` is shared over `total` units of deposit,
/// a deposit of `deposit` units gets no more than its exact proportion, and
/// falls short of it by at most one unit and one more for every whole
/// `SCALE_FACTOR` of deposit: by at most one unit, then, for every deposit
/// below `SCALE_FACTOR`.
pub proof fn lemma_fair_share(deposit: nat, total: nat, collateral: nat)
    requires
        total > 0,
    ensures
        spec_share(deposit, spec_per_unit(collateral, total)) <= spec_proportion(
            collateral,
            deposit,
            total,
        ),
        spec_proportion(collateral, deposit, total) - spec_share(
            deposit,
            spec_per_unit(collateral, total),
        ) <= spec_rounding(deposit),
        deposit < SCALE_FACTOR ==> spec_proportion(collateral, deposit, total) - spec_share(
            deposit,
            spec_per_unit(collateral, total),
        ) <= 1,
{
    let s = SCALE_FACTOR as int;
    let t = total as int;
    let c = collateral as int;
    let d = deposit as int;
    let p = (c * s) / t;
    let rp = (c * s) % t;
    let g = (d * p) / s;
    let rg = (d * p) % s;
    let due = (c * d) / t;
    let rd = (c * d) % t;
    assert(c * s >= 0 && c * d >= 0) by (nonlinear_arith)
        requires
            c >= 0,
            d >= 0,
            s > 0,
    ;
    lemma_fundamental_div_mod(c * s, t);
    lemma_mod_bound(c * s, t);
    lemma_div_pos_is_pos(c * s, t);
    assert(d * p >= 0) by (nonlinear_arith)
        requires
            d >= 0,
            p >= 0,
    ;
    lemma_fundamental_div_mod(d * p, s);
    lemma_mod_bound(d * p, s);
    lemma_div_pos_is_pos(d * p, s);
    lemma_fundamental_div_mod(c * d, t);
    lemma_mod_bound(c * d, t);
    lemma_div_pos_is_pos(c * d, t);
    assert(g <= due) by (nonlinear_arith)
        requires
            c * s == t * p + rp,
            d * p == s * g + rg,
            c * d == t * due + rd,
            0 <= rp < t,
            0 <= rg < s,
            0 <= rd < t,
            s > 0,
            t > 0,
            c >= 0,
            d >= 0,
            p >= 0,
            g >= 0,
            due >= 0,
    {
        if g >= due + 1 {
            assert(s * g >= s * (due + 1));
            assert(d * p >= s * (due + 1));
            assert(t * (d * p) >= t * (s * (due + 1)));
            assert(t * (s * (due + 1)) == s * (t * due + t));
            assert(s * (t * due + t) > s * (t * due + rd));
            assert(t * (d * p) == d * (t * p));
            assert(d * (t * p) <= d * (c * s));
            assert(d * (c * s) == s * (c * d));
            assert(false);
        }
    }
    let k = due - g;
    assert(s * (k - 1) < d) by (nonlinear_arith)
        requires
            c * s == t * p + rp,
            d * p == s * g + rg,
            c * d == t * due + rd,
            0 <= rp < t,
            0 <= rg < s,
            0 <= rd < t,
            s > 0,
            t > 0,
            c >= 0,
            d >= 0,
            p >= 0,
            g >= 0,
            due >= 0,
            k == due - g,
    {
        assert(s * (t * due) <= s * (c * d));
        assert(s * (c * d) == d * (c * s));
        assert(d * (c * s) == t * (d * p) + d * rp);
        assert(t * (d * p) == s * (t * g) + t * rg);
        assert(s * (t * due) - s * (t * g) == t * (s * k));
        assert(t * (s * k) <= t * rg + d * rp);
        assert(t * rg <= t * (s - 1));
        assert(d * rp <= d * (t - 1));
        assert(t * (s * k) < t * (s + d));
    }
    let cap = d / s;
    lemma_fundamental_div_mod(d, s);
    lemma_mod_bound(d, s);
    assert(k - 1 <= cap) by (nonlinear_arith)
        requires
            s * (k - 1) < d,
            d == s * cap + d % s,
            0 <= d % s < s,
            s > 0,
    ;
}

/// Fairness of one offset. Two deposits are settled and make up the pool's
/// total; `collateral` is then offset. The pending gain of each is its exact
/// proportion of the collateral, short by the rounding at most and never
/// over.
pub proof fn lemma_offset_is_fair(
    pool: PoolTotals,
    first: Deposit,
    second: Deposit,
    debt: u64,
    collateral: u64,
)
    requires
        first.collateral_snapshot == pool.cumulative_collateral_per_unit,
        second.collateral_snapshot == pool.cumulative_collateral_per_unit,
        pool.total_deposits == first.amount + second.amount,
        pool.total_deposits > 0,
        pool.spec_offset(debt, collateral) is Ok,
    ensures
        ({
            let after = pool.spec_offset(debt, collateral)->Ok_0;
            let total = pool.total_deposits as nat;
            let gain_first = (Stake { deposit: first, pool: after }).pending_gain();
            let gain_second = (Stake { deposit: second, pool: after }).pending_gain();
            let due_first = spec_proportion(collateral as nat, first.amount as nat, total);
            let due_second = spec_proportion(collateral as nat, second.amount as nat, total);
            &&& gain_first <= due_first
            &&& due_first - gain_first <= spec_rounding(first.amount as nat)
            &&& gain_second <= due_second
            &&& due_second - gain_second <= spec_rounding(second.amount as nat)
        }),
{
    let total = pool.total_deposits as nat;
    lemma_fair_share(first.amount as nat, total, collateral as nat);
    lemma_fair_share(second.amount as nat, total, collateral as nat);
}

/// The accumulators never fall: an offset raises them or leaves them, and
/// every other operation leaves them exactly as they are.
pub proof fn lemma_accumulators_never_fall(stake: Stake, amount: u64, debt: u64, collateral: u64)
    ensures
        stake.pool.spec_offset(debt, collateral) matches Ok(after)
            ==> stake.pool.accumulators_at_most(after),
        stake.pool.spec_receive_interest(amount) matches Ok(after)
            ==> stake.pool.same_accumulators(after),
        stake.spec_settle() matches Ok(done) ==> stake.pool.same_accumulators(done.0.pool),
        stake.spec_deposit(amount) matches Ok(done) ==> stake.pool.same_accumulators(done.0.pool),
        stake.spec_withdraw(amount) matches Ok(done) ==> stake.pool.same_accumulators(done.0.pool),
{
}

/// The pool after a run of offsets, each of a debt and a collateral, in
/// their order; a refused offset leaves the pool as it was.
pub open spec fn after_offsets(pool: PoolTotals, offsets: Seq<(u64, u64)>) -> PoolTotals
    decreases offsets.len(),
{
    if offsets.len() == 0 {
        pool
    } else {
        let before = after_offsets(pool, offsets.drop_last());
        match before.spec_offset(offsets.last().0, offsets.last().1) {
            Ok(after) => after,
            Err(_) => before,
        }
    }
}

/// Over any sequence of offsets, neither accumulator ever falls.
pub proof fn lemma_offsets_never_lower_accumulators(pool: PoolTotals, offsets: Seq<(u64, u64)>)
    ensures
        pool.accumulators_at_most(after_offsets(pool, offsets)),
    decreases offsets.len(),
{
    if offsets.len() > 0 {
        lemma_offsets_never_lower_accumulators(pool, offsets.drop_last());
    }
}

impl Stake {
    /// The deposit's snapshots are not ahead of the pool's accumulators.
    pub open spec fn snapshots_behind(self) -> bool {
        self.deposit.collateral_snapshot <= self.pool.cumulative_collateral_per_unit
            && self.deposit.loss_snapshot <= self.pool.cumulative_debt_loss_per_unit
    }

    /// The collateral the deposit has gained since it was last settled.
    pub open spec fn pending_gain(self) -> nat {
        spec_share(
            self.deposit.amount as nat,
            (self.pool.cumulative_collateral_per_unit - self.deposit.collateral_snapshot) as nat,
        )
    }

    /// The debt the deposit has absorbed since it was last settled.
    pub open spec fn pending_loss(self) -> nat {
        spec_share(
            self.deposit.amount as nat,
            (self.pool.cumulative_debt_loss_per_unit - self.deposit.loss_snapshot) as nat,
        )
    }

    /// The deposit with its snapshots brought up to the pool's accumulators.
    pub open spec fn refreshed(self, amount: u64) -> Deposit {
        Deposit {
            amount,
            collateral_snapshot: self.pool.cumulative_collateral_per_unit,
            loss_snapshot: self.pool.cumulative_debt_loss_per_unit,
        }
    }

    /// Settlement. The pending loss comes off the deposit, which stops at
    /// zero; the pending gain leaves the pool's collateral balance, which must
    /// hold it; the snapshots are refreshed, also for an empty deposit. A
    /// snapshot ahead of its accumulator, or a gain that the balance does not
    /// hold, is an arithmetic fault.
    pub open spec fn spec_settle(self) -> Result<(Stake, Settlement), Error> {
        if self.deposit.amount == 0 {
            Ok(
                (
                    Stake { deposit: self.refreshed(0), pool: self.pool },
                    Settlement { collateral_gain: 0, debt_loss: 0 },
                ),
            )
        } else if !self.snapshots_behind() {
            Err(Error::Arithmetic)
        } else if self.pending_gain() > self.pool.collateral_balance {
            Err(Error::Arithmetic)
        } else {
            let loss = if self.pending_loss() >= self.deposit.amount {
                self.deposit.amount
            } else {
                self.pending_loss() as u64
            };
            Ok(
                (
                    Stake {
                        deposit: self.refreshed((self.deposit.amount - loss) as u64),
                        pool: PoolTotals {
                            collateral_balance: (self.pool.collateral_balance
                                - self.pending_gain()) as u64,
                            ..self.pool
                        },
                    },
                    Settlement { collateral_gain: self.pending_gain() as u64, debt_loss: loss },
                ),
            )
        }
    }

    /// Settles the deposit.
    pub fn settle(self) -> (r: Result<(Stake, Settlement), Error>)
        ensures
            r == self.spec_settle(),
    {
        let refreshed = Deposit {
            amount: 0,
            collateral_snapshot: self.pool.cumulative_collateral_per_unit,
            loss_snapshot: self.pool.cumulative_debt_loss_per_unit,
        };
        if self.deposit.amount == 0 {
            return Ok(
                (
                    Stake { deposit: refreshed, pool: self.pool },
                    Settlement { collateral_gain: 0, debt_loss: 0 },
                ),
            );
        }
        let gain_delta: u128 = match self.pool.cumulative_collateral_per_unit.checked_sub(
            self.deposit.collateral_snapshot,
        ) {
            Some(d) => d,
            None => {
                return Err(Error::Arithmetic);
            },
        };
        let loss_delta: u128 = match self.pool.cumulative_debt_loss_per_unit.checked_sub(
            self.deposit.loss_snapshot,
        ) {
            Some(d) => d,
            None => {
                return Err(Error::Arithmetic);
            },
        };
        let gain: u64 = match share(self.deposit.amount, gain_delta) {
            Some(g) => g,
            None => {
                return Err(Error::Arithmetic);
            },
        };
        let balance: u64 = match self.pool.collateral_balance.checked_sub(gain) {
            Some(b) => b,
            None => {
                return Err(Error::Arithmetic);
            },
        };
        let loss: u64 = match share(self.deposit.amount, loss_delta) {
            Some(l) => if l >= self.deposit.amount {
                self.deposit.amount
            } else {
                l
            },
            None => self.deposit.amount,
        };
        Ok(
            (
                Stake {
                    deposit: Deposit { amount: self.deposit.amount - loss, ..refreshed },
                    pool: PoolTotals { collateral_balance: balance, ..self.pool },
                },
                Settlement { collateral_gain: gain, debt_loss: loss },
            ),
        )
    }

    /// Depositing `amount`, which must be positive, after settlement.
    pub open spec fn spec_deposit(self, amount: u64) -> Result<(Stake, Settlement), Error> {
        if amount == 0 {
            Err(Error::ZeroAmount)
        } else {
            match self.spec_settle() {
                Err(e) => Err(e),
                Ok((s, settlement)) => if s.deposit.amount + amount > u64::MAX
                    || s.pool.total_deposits + amount > u64::MAX {
                    Err(Error::Arithmetic)
                } else {
                    Ok(
                        (
                            Stake {
                                deposit: Deposit {
                                    amount: (s.deposit.amount + amount) as u64,
                                    ..s.deposit
                                },
                                pool: PoolTotals {
                                    total_deposits: (s.pool.total_deposits + amount) as u64,
                                    ..s.pool
                                },
                            },
                            settlement,
                        ),
                    )
                },
            }
        }
    }

    /// Deposits `amount`.
    pub fn deposit(self, amount: u64) -> (r: Result<(Stake, Settlement), Error>)
        ensures
            r == self.spec_deposit(amount),
    {
        if amount == 0 {
            return Err(Error::ZeroAmount);
        }
        let (s, settlement) = match self.settle() {
            Err(e) => {
                return Err(e);
            },
            Ok(done) => done,
        };
        let deposited: u64 = match s.deposit.amount.checked_add(amount) {
            Some(d) => d,
            None => {
                return Err(Error::Arithmetic);
            },
        };
        let total: u64 = match s.pool.total_deposits.checked_add(amount) {
            Some(t) => t,
            None => {
                return Err(Error::Arithmetic);
            },
        };
        Ok(
            (
                Stake {
                    deposit: Deposit { amount: deposited, ..s.deposit },
                    pool: PoolTotals { total_deposits: total, ..s.pool },
                },
                settlement,
            ),
        )
    }

    /// Withdrawing `amount`, which the recorded deposit must hold, after
    /// settlement. Where the settlement leaves less than `amount`, or the
    /// pool's total is less than `amount`, that is an arithmetic fault.
    pub open spec fn spec_withdraw(self, amount: u64) -> Result<(Stake, Settlement), Error> {
        if self.deposit.amount < amount {
            Err(Error::InsufficientDeposit)
        } else {
            match self.spec_settle() {
                Err(e) => Err(e),
                Ok((s, settlement)) => if s.deposit.amount < amount || s.pool.total_deposits
                    < amount {
                    Err(Error::Arithmetic)
                } else {
                    Ok(
                        (
                            Stake {
                                deposit: Deposit {
                                    amount: (s.deposit.amount - amount) as u64,
                                    ..s.deposit
                                },
                                pool: PoolTotals {
                                    total_deposits: (s.pool.total_deposits - amount) as u64,
                                    ..s.pool
                                },
                            },
                            settlement,
                        ),
                    )
                },
            }
        }
    }

    /// Withdraws `amount`.
    pub fn withdraw(self, amount: u64) -> (r: Result<(Stake, Settlement), Error>)
        ensures
            r == self.spec_withdraw(amount),
    {
        if self.deposit.amount < amount {
            return Err(Error::InsufficientDeposit);
        }
        let (s, settlement) = match self.settle() {
            Err(e) => {
                return Err(e);
            },
            Ok(done) => done,
        };
        let left: u64 = match s.deposit.amount.checked_sub(amount) {
            Some(d) => d,
            None => {
                return Err(Error::Arithmetic);
            },
        };
        let total: u64 = match s.pool.total_deposits.checked_sub(amount) {
            Some(t) => t,
            None => {
                return Err(Error::Arithmetic);
            },
        };
        Ok(
            (
                Stake {
                    deposit: Deposit { amount: left, ..s.deposit },
                    pool: PoolTotals { total_deposits: total, ..s.pool },
                },
                settlement,
            ),
        )
    }

    /// The collateral that a settlement would pay out now.
    pub open spec fn spec_pending_collateral_gain(self) -> Result<u64, Error> {
        if self.deposit.amount == 0 {
            Ok(0)
        } else if self.deposit.collateral_snapshot > self.pool.cumulative_collateral_per_unit
            || self.pending_gain() > u64::MAX {
            Err(Error::Arithmetic)
        } else {
            Ok(self.pending_gain() as u64)
        }
    }

    /// The collateral that a settlement would pay out now.
    pub fn pending_collateral_gain(self) -> (r: Result<u64, Error>)
        ensures
            r == self.spec_pending_collateral_gain(),
    {
        if self.deposit.amount == 0 {
            return Ok(0);
        }
        let delta: u128 = match self.pool.cumulative_collateral_per_unit.checked_sub(
            self.deposit.collateral_snapshot,
        ) {
            Some(d) => d,
            None => {
                return Err(Error::Arithmetic);
            },
        };
        match share(self.deposit.amount, delta) {
            Some(g) => Ok(g),
            None => Err(Error::Arithmetic),
        }
    }
}

} // verus!
