//! The stability pool: depositors put up debt tokens that absorb the debt of
//! liquidated troves, and share the seized collateral in proportion to their
//! deposits. Sharing costs the same whatever the number of depositors: see
//! the accumulators in `deposit`.

use crate::accounts::{
    distinct_keys, has_key, index_of, lemma_put_distinct, lemma_put_value, put, value_of,
    AccountMap, Key,
};
use crate::deposit::{
    empty_pool, no_deposit, spec_empty_pool, spec_no_deposit, Deposit, PoolTotals, Settlement,
    Stake,
};
use crate::error::Error;
use odra_core::prelude::Address;
use vstd::prelude::*;

verus! {

/// What a stability pool holds.
pub struct PoolView {
    pub owner: Address,
    pub stablecoin: Address,
    /// The only caller that may offset debt or hand in interest.
    pub trove_manager: Address,
    /// One record per account that ever deposited.
    pub deposits: Seq<(Address, Deposit)>,
    pub pool: PoolTotals,
}

impl PoolView {
    /// The deposit record of `account`.
    pub open spec fn deposit_of(self, account: Address) -> Deposit {
        match value_of(self.deposits, account) {
            Some(d) => d,
            None => spec_no_deposit(),
        }
    }

    /// The deposit of `account` with the pool figures it shares in.
    pub open spec fn stake_of(self, account: Address) -> Stake {
        Stake { deposit: self.deposit_of(account), pool: self.pool }
    }

    /// The pool after an operation of `account` that led to `stake`.
    pub open spec fn with_stake(self, account: Address, stake: Stake) -> PoolView {
        PoolView { deposits: put(self.deposits, account, stake.deposit), pool: stake.pool, ..self }
    }

    /// No account has two records, and no record's snapshots are ahead of the
    /// accumulators.
    pub open spec fn consistent(self) -> bool {
        &&& distinct_keys(self.deposits)
        &&& forall|i: int|
            0 <= i < self.deposits.len() ==> (Stake {
                deposit: (#[trigger] self.deposits[i]).1,
                pool: self.pool,
            }).snapshots_behind()
    }
}

/// An operation on the deposit of one account leaves the deposit record of
/// every other account as it was: what an offset did to the others stays
/// pending until each is settled.
pub proof fn lemma_other_deposits_untouched(
    pool: PoolView,
    account: Address,
    stake: Stake,
    other: Address,
)
    requires
        pool.consistent(),
    ensures
        pool.with_stake(account, stake).deposit_of(other) == if other == account {
            stake.deposit
        } else {
            pool.deposit_of(other)
        },
{
    lemma_put_value(pool.deposits, account, stake.deposit, other);
}

/// In a consistent pool no account's snapshots are ahead of the accumulators,
/// so that no settlement fails for that.
pub proof fn lemma_snapshots_behind(pool: PoolView, account: Address)
    requires
        pool.consistent(),
    ensures
        pool.stake_of(account).snapshots_behind(),
{
    if has_key(pool.deposits, account) {
        let i = index_of(pool.deposits, account);
        assert(pool.deposits[i].1 == pool.deposit_of(account));
    }
}

/// The stability pool.
pub struct StabilityPool {
    owner: Address,
    stablecoin: Address,
    trove_manager: Address,
    deposits: AccountMap<Address, Deposit>,
    pool: PoolTotals,
}

impl View for StabilityPool {
    type V = PoolView;

    closed spec fn view(&self) -> PoolView {
        PoolView {
            owner: self.owner,
            stablecoin: self.stablecoin,
            trove_manager: self.trove_manager,
            deposits: self.deposits@,
            pool: self.pool,
        }
    }
}

impl StabilityPool {
    /// The pool is consistent.
    pub open spec fn wf(&self) -> bool {
        self@.consistent()
    }

    /// A new, empty pool, owned by `caller`, that takes offsets and interest
    /// from `trove_manager` alone.
    pub fn init(caller: Address, stablecoin: Address, trove_manager: Address) -> (pool: Self)
        ensures
            pool.wf(),
            pool@ == (PoolView {
                owner: caller,
                stablecoin,
                trove_manager,
                deposits: Seq::empty(),
                pool: spec_empty_pool(),
            }),
    {
        StabilityPool {
            owner: caller,
            stablecoin,
            trove_manager,
            deposits: AccountMap::new(),
            pool: empty_pool(),
        }
    }

    fn stake(&self, account: Address) -> (s: Stake)
        requires
            self.wf(),
        ensures
            s == self@.stake_of(account),
    {
        let deposit = match self.deposits.get(&account) {
            Some(d) => d,
            None => no_deposit(),
        };
        Stake { deposit, pool: self.pool }
    }

    fn commit(&mut self, account: Address, stake: Stake)
        requires
            old(self).wf(),
            stake.snapshots_behind(),
            old(self)@.pool.same_accumulators(stake.pool),
        ensures
            final(self).wf(),
            final(self)@ == old(self)@.with_stake(account, stake),
    {
        proof {
            lemma_put_distinct(self@.deposits, account, stake.deposit);
            let after = put(self@.deposits, account, stake.deposit);
            assert forall|i: int| 0 <= i < after.len() implies (Stake {
                deposit: (#[trigger] after[i]).1,
                pool: stake.pool,
            }).snapshots_behind() by {
                if i < self@.deposits.len() && after[i] != (account, stake.deposit) {
                    assert(after[i] == self@.deposits[i]);
                }
            }
        }
        self.deposits.set(account, stake.deposit);
        self.pool = stake.pool;
    }

    /// Deposits `amount` for `caller`: settles what is pending, then adds
    /// `amount` to the deposit and to the pool's total.
    pub fn deposit(&mut self, caller: Address, amount: u64) -> (r: Result<Settlement, Error>)
        requires
            old(self).wf(),
        ensures
            final(self).wf(),
            match old(self)@.stake_of(caller).spec_deposit(amount) {
                Ok((stake, settlement)) => r == Ok::<Settlement, Error>(settlement) && final(self)@
                    == old(self)@.with_stake(caller, stake),
                Err(e) => r == Err::<Settlement, Error>(e) && *final(self) == *old(self),
            },
    {
        let before = self.stake(caller);
        match before.deposit(amount) {
            Err(e) => Err(e),
            Ok((stake, settlement)) => {
                self.commit(caller, stake);
                Ok(settlement)
            },
        }
    }

    /// Withdraws `amount` for `caller`: settles what is pending, then takes
    /// `amount` off the deposit and off the pool's total.
    pub fn withdraw(&mut self, caller: Address, amount: u64) -> (r: Result<Settlement, Error>)
        requires
            old(self).wf(),
        ensures
            final(self).wf(),
            match old(self)@.stake_of(caller).spec_withdraw(amount) {
                Ok((stake, settlement)) => r == Ok::<Settlement, Error>(settlement) && final(self)@
                    == old(self)@.with_stake(caller, stake),
                Err(e) => r == Err::<Settlement, Error>(e) && *final(self) == *old(self),
            },
    {
        let before = self.stake(caller);
        match before.withdraw(amount) {
            Err(e) => Err(e),
            Ok((stake, settlement)) => {
                self.commit(caller, stake);
                Ok(settlement)
            },
        }
    }

    /// Settles what is pending for `caller`, and nothing else.
    pub fn claim_rewards(&mut self, caller: Address) -> (r: Result<Settlement, Error>)
        requires
            old(self).wf(),
        ensures
            final(self).wf(),
            match old(self)@.stake_of(caller).spec_settle() {
                Ok((stake, settlement)) => r == Ok::<Settlement, Error>(settlement) && final(self)@
                    == old(self)@.with_stake(caller, stake),
                Err(e) => r == Err::<Settlement, Error>(e) && *final(self) == *old(self),
            },
    {
        let before = self.stake(caller);
        match before.settle() {
            Err(e) => Err(e),
            Ok((stake, settlement)) => {
                self.commit(caller, stake);
                Ok(settlement)
            },
        }
    }

    /// What `offset` does to a pool `pre`.
    pub open spec fn spec_offset(
        pre: PoolView,
        caller: Address,
        debt: u64,
        collateral: u64,
    ) -> Result<PoolView, Error> {
        if caller != pre.trove_manager {
            Err(Error::NotTroveManager)
        } else {
            match pre.pool.spec_offset(debt, collateral) {
                Err(e) => Err(e),
                Ok(pool) => Ok(PoolView { pool, ..pre }),
            }
        }
    }

    /// Absorbs `debt_to_offset` of a liquidated trove and takes
    /// `collateral_to_add`. Only the trove manager may do this. No deposit
    /// record is touched: each depositor's share is realised when the deposit
    /// is next settled. The accumulators never fall.
    pub fn offset(&mut self, caller: Address, debt_to_offset: u64, collateral_to_add: u64) -> (r:
        Result<(), Error>)
        requires
            old(self).wf(),
        ensures
            final(self).wf(),
            match Self::spec_offset(old(self)@, caller, debt_to_offset, collateral_to_add) {
                Ok(post) => r == Ok::<(), Error>(()) && final(self)@ == post,
                Err(e) => r == Err::<(), Error>(e) && *final(self) == *old(self),
            },
            old(self)@.pool.accumulators_at_most(final(self)@.pool),
    {
        if !caller.same(&self.trove_manager) {
            return Err(Error::NotTroveManager);
        }
        match self.pool.offset(debt_to_offset, collateral_to_add) {
            Err(e) => Err(e),
            Ok(pool) => {
                self.pool = pool;
                Ok(())
            },
        }
    }

    /// What `receive_interest` does to a pool `pre`.
    pub open spec fn spec_receive_interest(pre: PoolView, caller: Address, amount: u64) -> Result<
        PoolView,
        Error,
    > {
        if caller != pre.trove_manager {
            Err(Error::NotTroveManager)
        } else {
            match pre.pool.spec_receive_interest(amount) {
                Err(e) => Err(e),
                Ok(pool) => Ok(PoolView { pool, ..pre }),
            }
        }
    }

    /// Takes `amount` of interest revenue. Only the trove manager may do
    /// this. The revenue is held as pending; it takes no part in settlement.
    pub fn receive_interest(&mut self, caller: Address, amount: u64) -> (r: Result<(), Error>)
        requires
            old(self).wf(),
        ensures
            final(self).wf(),
            match Self::spec_receive_interest(old(self)@, caller, amount) {
                Ok(post) => r == Ok::<(), Error>(()) && final(self)@ == post,
                Err(e) => r == Err::<(), Error>(e) && *final(self) == *old(self),
            },
    {
        if !caller.same(&self.trove_manager) {
            return Err(Error::NotTroveManager);
        }
        match self.pool.receive_interest(amount) {
            Err(e) => Err(e),
            Ok(pool) => {
                self.pool = pool;
                Ok(())
            },
        }
    }

    /// The recorded deposit of `user`: what was put in, less what was taken
    /// out and less the losses realised so far.
    pub fn get_deposit(&self, user: Address) -> (r: u64)
        requires
            self.wf(),
        ensures
            r == self@.deposit_of(user).amount,
    {
        self.stake(user).deposit.amount
    }

    /// The deposits less all debt absorbed.
    pub fn get_total_deposits(&self) -> (r: u64)
        ensures
            r == self@.pool.total_deposits,
    {
        self.pool.total_deposits
    }

    /// The seized collateral that the pool holds.
    pub fn get_collateral_balance(&self) -> (r: u64)
        ensures
            r == self@.pool.collateral_balance,
    {
        self.pool.collateral_balance
    }

    /// The interest revenue received and not distributed.
    pub fn get_pending_interest_revenue(&self) -> (r: u64)
        ensures
            r == self@.pool.pending_interest_revenue,
    {
        self.pool.pending_interest_revenue
    }

    /// The collateral that a settlement would pay `user` now.
    pub fn get_pending_collateral_gain(&self, user: Address) -> (r: Result<u64, Error>)
        requires
            self.wf(),
        ensures
            r == self@.stake_of(user).spec_pending_collateral_gain(),
    {
        self.stake(user).pending_collateral_gain()
    }

    /// The yield from liquidation gains. No history of gains is kept, and the
    /// figure is zero.
    pub fn get_effective_apy(&self) -> (r: u64)
        ensures
            r == 0,
    {
        0
    }
}

} // verus!
