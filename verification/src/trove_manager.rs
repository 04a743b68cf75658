//! The trove ledger: one trove per account, opened against collateral at an
//! interest rate that the owner chooses, and the running totals over the
//! active troves. The totals are kept up with every operation and never
//! recomputed; that they are the sums over the active troves is the ledger's
//! invariant.

use crate::accounts::{
    distinct_keys, lemma_put_distinct, lemma_put_sum, lemma_put_value, put, sum_of, value_of,
    AccountMap, Key,
};
use crate::error::Error;
use crate::oracle::PriceOracle;
use crate::stability_pool::StabilityPool;
use crate::trove::{
    is_liquidatable, no_trove, ratio_of, redemption_fee, spec_is_liquidatable, spec_no_trove,
    spec_ratio_of, spec_redemption_fee, Position, Seizure, Totals, Trove,
};
use odra_core::prelude::Address;
use vstd::prelude::*;

verus! {

/// What a trove adds to the total collateral.
pub open spec fn active_collateral(trove: Trove) -> nat {
    if trove.active {
        trove.collateral as nat
    } else {
        0
    }
}

/// What a trove adds to the total debt.
pub open spec fn active_debt(trove: Trove) -> nat {
    if trove.active {
        trove.debt as nat
    } else {
        0
    }
}

/// What a trove adds to the count of active troves.
pub open spec fn active_count(trove: Trove) -> nat {
    if trove.active {
        1
    } else {
        0
    }
}

/// `active_collateral`, as a weight to sum by.
pub open spec fn by_collateral() -> spec_fn(Trove) -> nat {
    |trove: Trove| active_collateral(trove)
}

/// `active_debt`, as a weight to sum by.
pub open spec fn by_debt() -> spec_fn(Trove) -> nat {
    |trove: Trove| active_debt(trove)
}

/// `active_count`, as a weight to sum by.
pub open spec fn by_count() -> spec_fn(Trove) -> nat {
    |trove: Trove| active_count(trove)
}

/// The totals move by exactly what the trove's share in them moves by.
pub open spec fn balanced(pre: Position, post: Position) -> bool {
    &&& post.totals.collateral - pre.totals.collateral == active_collateral(post.trove)
        - active_collateral(pre.trove)
    &&& post.totals.debt - pre.totals.debt == active_debt(post.trove) - active_debt(pre.trove)
    &&& post.totals.troves - pre.totals.troves == active_count(post.trove) - active_count(
        pre.trove,
    )
}

/// What a trove ledger holds.
pub struct LedgerView {
    pub owner: Address,
    pub oracle: Address,
    pub stablecoin: Address,
    pub stcspr_token: Address,
    pub stability_pool: Option<Address>,
    /// One record per account that ever opened a trove.
    pub troves: Seq<(Address, Trove)>,
    pub totals: Totals,
    pub base_rate: u64,
    pub last_redemption_time: u64,
}

impl LedgerView {
    /// The trove record of `account`.
    pub open spec fn trove_of(self, account: Address) -> Trove {
        match value_of(self.troves, account) {
            Some(t) => t,
            None => spec_no_trove(),
        }
    }

    /// The trove of `account` with the ledger's totals.
    pub open spec fn position_of(self, account: Address) -> Position {
        Position { trove: self.trove_of(account), totals: self.totals }
    }

    /// The ledger after an operation on the trove of `account` that led to
    /// `position`.
    pub open spec fn with_position(self, account: Address, position: Position) -> LedgerView {
        LedgerView {
            troves: put(self.troves, account, position.trove),
            totals: position.totals,
            ..self
        }
    }

    /// No account has two records, and each total is the sum over the active
    /// troves: of their collateral, of their debt, and of one for each.
    pub open spec fn consistent(self) -> bool {
        &&& distinct_keys(self.troves)
        &&& self.totals.collateral == sum_of(self.troves, by_collateral())
        &&& self.totals.debt == sum_of(self.troves, by_debt())
        &&& self.totals.troves == sum_of(self.troves, by_count())
    }
}

/// An operation on the trove of one account leaves the trove of every other
/// account as it was.
pub proof fn lemma_other_troves_untouched(
    ledger: LedgerView,
    account: Address,
    post: Position,
    other: Address,
)
    requires
        ledger.consistent(),
    ensures
        ledger.with_position(account, post).trove_of(other) == if other == account {
            post.trove
        } else {
            ledger.trove_of(other)
        },
{
    lemma_put_value(ledger.troves, account, post.trove, other);
}

/// A consistent ledger stays consistent when the trove of one account and the
/// totals move together.
pub proof fn lemma_with_position_consistent(ledger: LedgerView, account: Address, post: Position)
    requires
        ledger.consistent(),
        balanced(ledger.position_of(account), post),
    ensures
        ledger.with_position(account, post).consistent(),
{
    lemma_put_distinct(ledger.troves, account, post.trove);
    lemma_put_sum(ledger.troves, account, post.trove, by_collateral());
    lemma_put_sum(ledger.troves, account, post.trove, by_debt());
    lemma_put_sum(ledger.troves, account, post.trove, by_count());
}

/// Every trove operation moves the totals by exactly what it moves the
/// trove's share in them by; accrual does so on an active trove.
pub proof fn lemma_operations_balanced(
    pre: Position,
    now: u64,
    price: Option<u64>,
    collateral: u64,
    amount: u64,
    rate: u64,
)
    ensures
        pre.trove.active ==> (pre.spec_accrue(now) matches Ok(post) ==> balanced(pre, post)),
        pre.spec_open_trove(now, price, collateral, amount, rate) matches Ok(post) ==> balanced(
            pre,
            post,
        ),
        pre.spec_adjust_interest_rate(now, rate) matches Ok(post) ==> balanced(pre, post),
        pre.spec_add_collateral(now, amount) matches Ok(post) ==> balanced(pre, post),
        pre.spec_withdraw_collateral(now, price, amount) matches Ok(post) ==> balanced(pre, post),
        pre.spec_borrow(now, price, amount) matches Ok(post) ==> balanced(pre, post),
        pre.spec_repay(now, amount) matches Ok(done) ==> balanced(pre, done.0),
        pre.spec_close_trove(now) matches Ok(done) ==> balanced(pre, done.0),
        pre.spec_liquidate(price) matches Ok(done) ==> balanced(pre, done.0),
{
}

/// The accounting invariant. Whatever trove operation succeeds on the trove
/// of any account of a consistent ledger, the ledger that follows is
/// consistent: its total collateral, total debt and trove count are the sums
/// over its active troves. A new ledger is consistent, and a refused
/// operation changes nothing, so the totals are those sums after any
/// sequence of operations.
pub proof fn lemma_ledger_stays_consistent(
    ledger: LedgerView,
    account: Address,
    now: u64,
    price: Option<u64>,
    collateral: u64,
    amount: u64,
    rate: u64,
)
    requires
        ledger.consistent(),
    ensures
        ledger.position_of(account).spec_open_trove(now, price, collateral, amount, rate)
            matches Ok(post) ==> ledger.with_position(account, post).consistent(),
        ledger.position_of(account).spec_adjust_interest_rate(now, rate) matches Ok(post)
            ==> ledger.with_position(account, post).consistent(),
        ledger.position_of(account).spec_add_collateral(now, amount) matches Ok(post)
            ==> ledger.with_position(account, post).consistent(),
        ledger.position_of(account).spec_withdraw_collateral(now, price, amount) matches Ok(post)
            ==> ledger.with_position(account, post).consistent(),
        ledger.position_of(account).spec_borrow(now, price, amount) matches Ok(post)
            ==> ledger.with_position(account, post).consistent(),
        ledger.position_of(account).spec_repay(now, amount) matches Ok(done)
            ==> ledger.with_position(account, done.0).consistent(),
        ledger.position_of(account).spec_close_trove(now) matches Ok(done)
            ==> ledger.with_position(account, done.0).consistent(),
        ledger.position_of(account).spec_liquidate(price) matches Ok(done)
            ==> ledger.with_position(account, done.0).consistent(),
{
    let pre = ledger.position_of(account);
    lemma_operations_balanced(pre, now, price, collateral, amount, rate);
    if let Ok(post) = pre.spec_open_trove(now, price, collateral, amount, rate) {
        lemma_with_position_consistent(ledger, account, post);
    }
    if let Ok(post) = pre.spec_adjust_interest_rate(now, rate) {
        lemma_with_position_consistent(ledger, account, post);
    }
    if let Ok(post) = pre.spec_add_collateral(now, amount) {
        lemma_with_position_consistent(ledger, account, post);
    }
    if let Ok(post) = pre.spec_withdraw_collateral(now, price, amount) {
        lemma_with_position_consistent(ledger, account, post);
    }
    if let Ok(post) = pre.spec_borrow(now, price, amount) {
        lemma_with_position_consistent(ledger, account, post);
    }
    if let Ok(done) = pre.spec_repay(now, amount) {
        lemma_with_position_consistent(ledger, account, done.0);
    }
    if let Ok(done) = pre.spec_close_trove(now) {
        lemma_with_position_consistent(ledger, account, done.0);
    }
    if let Ok(done) = pre.spec_liquidate(price) {
        lemma_with_position_consistent(ledger, account, done.0);
    }
}

/// What a call to the ledger asks for.
pub enum TroveCall {
    Open { collateral: u64, debt: u64, rate: u64 },
    AdjustInterestRate { rate: u64 },
    AddCollateral { amount: u64 },
    WithdrawCollateral { amount: u64 },
    Borrow { amount: u64 },
    Repay { amount: u64 },
    Close,
    Liquidate,
}

/// One call to the ledger: whose trove it is about, when it is made, what the
/// feed quotes at that time, and what it asks for.
pub struct TroveEvent {
    pub account: Address,
    pub now: u64,
    pub price: Option<u64>,
    pub call: TroveCall,
}

impl LedgerView {
    /// The position that `event` leads to; `None` where the call is refused.
    pub open spec fn outcome(self, event: TroveEvent) -> Option<Position> {
        let pre = self.position_of(event.account);
        match event.call {
            TroveCall::Open { collateral, debt, rate } => pre.spec_open_trove(
                event.now,
                event.price,
                collateral,
                debt,
                rate,
            ).ok(),
            TroveCall::AdjustInterestRate { rate } => pre.spec_adjust_interest_rate(
                event.now,
                rate,
            ).ok(),
            TroveCall::AddCollateral { amount } => pre.spec_add_collateral(event.now, amount).ok(),
            TroveCall::WithdrawCollateral { amount } => pre.spec_withdraw_collateral(
                event.now,
                event.price,
                amount,
            ).ok(),
            TroveCall::Borrow { amount } => pre.spec_borrow(event.now, event.price, amount).ok(),
            TroveCall::Repay { amount } => match pre.spec_repay(event.now, amount) {
                Ok(done) => Some(done.0),
                Err(_) => None,
            },
            TroveCall::Close => match pre.spec_close_trove(event.now) {
                Ok(done) => Some(done.0),
                Err(_) => None,
            },
            TroveCall::Liquidate => match pre.spec_liquidate(event.price) {
                Ok(done) => Some(done.0),
                Err(_) => None,
            },
        }
    }

    /// The ledger after `event`: as the call leaves it, or as it was where
    /// the call is refused.
    pub open spec fn after(self, event: TroveEvent) -> LedgerView {
        match self.outcome(event) {
            Some(post) => self.with_position(event.account, post),
            None => self,
        }
    }

    /// The ledger after `events`, in their order.
    pub open spec fn after_all(self, events: Seq<TroveEvent>) -> LedgerView
        decreases events.len(),
    {
        if events.len() == 0 {
            self
        } else {
            self.after_all(events.drop_last()).after(events.last())
        }
    }
}

/// The accounting invariant over histories. After any sequence of calls to a
/// consistent ledger, refused ones among them, the total collateral, the
/// total debt and the trove count are the sums over the active troves.
pub proof fn lemma_totals_are_sums_after_any_calls(ledger: LedgerView, events: Seq<TroveEvent>)
    requires
        ledger.consistent(),
    ensures
        ledger.after_all(events).consistent(),
    decreases events.len(),
{
    if events.len() > 0 {
        lemma_totals_are_sums_after_any_calls(ledger, events.drop_last());
        let before = ledger.after_all(events.drop_last());
        let event = events.last();
        match event.call {
            TroveCall::Open { collateral, debt, rate } => {
                lemma_ledger_stays_consistent(
                    before,
                    event.account,
                    event.now,
                    event.price,
                    collateral,
                    debt,
                    rate,
                );
            },
            TroveCall::AdjustInterestRate { rate } => {
                lemma_ledger_stays_consistent(
                    before,
                    event.account,
                    event.now,
                    event.price,
                    0,
                    0,
                    rate,
                );
            },
            TroveCall::AddCollateral { amount }
            | TroveCall::WithdrawCollateral { amount }
            | TroveCall::Borrow { amount }
            | TroveCall::Repay { amount } => {
                lemma_ledger_stays_consistent(
                    before,
                    event.account,
                    event.now,
                    event.price,
                    0,
                    amount,
                    0,
                );
            },
            TroveCall::Close | TroveCall::Liquidate => {
                lemma_ledger_stays_consistent(
                    before,
                    event.account,
                    event.now,
                    event.price,
                    0,
                    0,
                    0,
                );
            },
        }
    }
}

/// The trove ledger.
pub struct TroveManager {
    owner: Address,
    oracle: Address,
    stablecoin: Address,
    stcspr_token: Address,
    stability_pool: Option<Address>,
    troves: AccountMap<Address, Trove>,
    totals: Totals,
    base_rate: u64,
    last_redemption_time: u64,
}

impl View for TroveManager {
    type V = LedgerView;

    closed spec fn view(&self) -> LedgerView {
        LedgerView {
            owner: self.owner,
            oracle: self.oracle,
            stablecoin: self.stablecoin,
            stcspr_token: self.stcspr_token,
            stability_pool: self.stability_pool,
            troves: self.troves@,
            totals: self.totals,
            base_rate: self.base_rate,
            last_redemption_time: self.last_redemption_time,
        }
    }
}

impl TroveManager {
    /// The ledger is consistent.
    pub open spec fn wf(&self) -> bool {
        self@.consistent()
    }

    /// A new ledger without troves, owned by `caller`.
    pub fn init(caller: Address, oracle: Address, stablecoin: Address, stcspr: Address) -> (ledger:
        Self)
        ensures
            ledger.wf(),
            ledger@ == (LedgerView {
                owner: caller,
                oracle,
                stablecoin,
                stcspr_token: stcspr,
                stability_pool: None,
                troves: Seq::empty(),
                totals: Totals { collateral: 0, debt: 0, troves: 0 },
                base_rate: 0,
                last_redemption_time: 0,
            }),
    {
        TroveManager {
            owner: caller,
            oracle,
            stablecoin,
            stcspr_token: stcspr,
            stability_pool: None,
            troves: AccountMap::new(),
            totals: Totals { collateral: 0, debt: 0, troves: 0 },
            base_rate: 0,
            last_redemption_time: 0,
        }
    }

    /// Names the stability pool. Only the owner may do this.
    pub fn set_stability_pool(&mut self, caller: Address, pool: Address) -> (r: Result<(), Error>)
        requires
            old(self).wf(),
        ensures
            final(self).wf(),
            r is Ok <==> caller == old(self)@.owner,
            r is Err ==> r == Err::<(), Error>(Error::NotOwner) && *final(self) == *old(self),
            r is Ok ==> final(self)@ == (LedgerView { stability_pool: Some(pool), ..old(self)@ }),
    {
        if !caller.same(&self.owner) {
            return Err(Error::NotOwner);
        }
        self.stability_pool = Some(pool);
        Ok(())
    }

    fn position(&self, account: Address) -> (p: Position)
        requires
            self.wf(),
        ensures
            p == self@.position_of(account),
    {
        let trove = match self.troves.get(&account) {
            Some(t) => t,
            None => no_trove(),
        };
        Position { trove, totals: self.totals }
    }

    fn commit(&mut self, account: Address, post: Position)
        requires
            old(self).wf(),
            balanced(old(self)@.position_of(account), post),
        ensures
            final(self).wf(),
            final(self)@ == old(self)@.with_position(account, post),
    {
        proof {
            lemma_with_position_consistent(self@, account, post);
        }
        self.troves.set(account, post.trove);
        self.totals = post.totals;
    }

    /// Opens a trove for `caller` with `collateral`, `debt` and
    /// `interest_rate`, at the feed's spot price.
    pub fn open_trove(
        &mut self,
        caller: Address,
        now: u64,
        oracle: &PriceOracle,
        collateral: u64,
        debt: u64,
        interest_rate: u64,
    ) -> (r: Result<(), Error>)
        requires
            old(self).wf(),
        ensures
            final(self).wf(),
            match old(self)@.position_of(caller).spec_open_trove(
                now,
                oracle@.quote(now),
                collateral,
                debt,
                interest_rate,
            ) {
                Ok(post) => r == Ok::<(), Error>(()) && final(self)@ == old(self)@.with_position(
                    caller,
                    post,
                ),
                Err(e) => r == Err::<(), Error>(e) && *final(self) == *old(self),
            },
            final(self)@ == old(self)@.after(
                (TroveEvent {
                    account: caller,
                    now,
                    price: oracle@.quote(now),
                    call: TroveCall::Open { collateral, debt, rate: interest_rate },
                }),
            ),
    {
        let pre = self.position(caller);
        match pre.open_trove(now, oracle.quote(now), collateral, debt, interest_rate) {
            Err(e) => Err(e),
            Ok(post) => {
                proof {
                    lemma_operations_balanced(
                        pre,
                        now,
                        oracle@.quote(now),
                        collateral,
                        debt,
                        interest_rate,
                    );
                }
                self.commit(caller, post);
                Ok(())
            },
        }
    }

    /// Changes the interest rate of `caller`'s trove to `new_rate`.
    pub fn adjust_interest_rate(&mut self, caller: Address, now: u64, new_rate: u64) -> (r: Result<
        (),
        Error,
    >)
        requires
            old(self).wf(),
        ensures
            final(self).wf(),
            match old(self)@.position_of(caller).spec_adjust_interest_rate(now, new_rate) {
                Ok(post) => r == Ok::<(), Error>(()) && final(self)@ == old(self)@.with_position(
                    caller,
                    post,
                ),
                Err(e) => r == Err::<(), Error>(e) && *final(self) == *old(self),
            },
            final(self)@ == old(self)@.after(
                (TroveEvent {
                    account: caller,
                    now,
                    price: None,
                    call: TroveCall::AdjustInterestRate { rate: new_rate },
                }),
            ),
    {
        let pre = self.position(caller);
        match pre.adjust_interest_rate(now, new_rate) {
            Err(e) => Err(e),
            Ok(post) => {
                proof {
                    lemma_operations_balanced(pre, now, None, 0, 0, new_rate);
                }
                self.commit(caller, post);
                Ok(())
            },
        }
    }

    /// Adds `amount` of collateral to `caller`'s trove.
    pub fn add_collateral(&mut self, caller: Address, now: u64, amount: u64) -> (r: Result<
        (),
        Error,
    >)
        requires
            old(self).wf(),
        ensures
            final(self).wf(),
            match old(self)@.position_of(caller).spec_add_collateral(now, amount) {
                Ok(post) => r == Ok::<(), Error>(()) && final(self)@ == old(self)@.with_position(
                    caller,
                    post,
                ),
                Err(e) => r == Err::<(), Error>(e) && *final(self) == *old(self),
            },
            final(self)@ == old(self)@.after(
                (TroveEvent {
                    account: caller,
                    now,
                    price: None,
                    call: TroveCall::AddCollateral { amount },
                }),
            ),
    {
        let pre = self.position(caller);
        match pre.add_collateral(now, amount) {
            Err(e) => Err(e),
            Ok(post) => {
                proof {
                    lemma_operations_balanced(pre, now, None, 0, amount, 0);
                }
                self.commit(caller, post);
                Ok(())
            },
        }
    }

    /// Withdraws `amount` of collateral from `caller`'s trove, at the feed's
    /// spot price.
    pub fn withdraw_collateral(
        &mut self,
        caller: Address,
        now: u64,
        oracle: &PriceOracle,
        amount: u64,
    ) -> (r: Result<(), Error>)
        requires
            old(self).wf(),
        ensures
            final(self).wf(),
            match old(self)@.position_of(caller).spec_withdraw_collateral(
                now,
                oracle@.quote(now),
                amount,
            ) {
                Ok(post) => r == Ok::<(), Error>(()) && final(self)@ == old(self)@.with_position(
                    caller,
                    post,
                ),
                Err(e) => r == Err::<(), Error>(e) && *final(self) == *old(self),
            },
            final(self)@ == old(self)@.after(
                (TroveEvent {
                    account: caller,
                    now,
                    price: oracle@.quote(now),
                    call: TroveCall::WithdrawCollateral { amount },
                }),
            ),
    {
        let pre = self.position(caller);
        match pre.withdraw_collateral(now, oracle.quote(now), amount) {
            Err(e) => Err(e),
            Ok(post) => {
                proof {
                    lemma_operations_balanced(pre, now, oracle@.quote(now), 0, amount, 0);
                }
                self.commit(caller, post);
                Ok(())
            },
        }
    }

    /// Borrows `amount` more against `caller`'s trove, at the feed's spot
    /// price.
    pub fn borrow(&mut self, caller: Address, now: u64, oracle: &PriceOracle, amount: u64) -> (r:
        Result<(), Error>)
        requires
            old(self).wf(),
        ensures
            final(self).wf(),
            match old(self)@.position_of(caller).spec_borrow(now, oracle@.quote(now), amount) {
                Ok(post) => r == Ok::<(), Error>(()) && final(self)@ == old(self)@.with_position(
                    caller,
                    post,
                ),
                Err(e) => r == Err::<(), Error>(e) && *final(self) == *old(self),
            },
            final(self)@ == old(self)@.after(
                (TroveEvent {
                    account: caller,
                    now,
                    price: oracle@.quote(now),
                    call: TroveCall::Borrow { amount },
                }),
            ),
    {
        let pre = self.position(caller);
        match pre.borrow(now, oracle.quote(now), amount) {
            Err(e) => Err(e),
            Ok(post) => {
                proof {
                    lemma_operations_balanced(pre, now, oracle@.quote(now), 0, amount, 0);
                }
                self.commit(caller, post);
                Ok(())
            },
        }
    }

    /// Repays `amount` of `caller`'s debt, or all of it where `amount` is
    /// more; gives the amount that came off the debt.
    pub fn repay(&mut self, caller: Address, now: u64, amount: u64) -> (r: Result<u64, Error>)
        requires
            old(self).wf(),
        ensures
            final(self).wf(),
            match old(self)@.position_of(caller).spec_repay(now, amount) {
                Ok((post, repaid)) => r == Ok::<u64, Error>(repaid) && final(self)@ == old(
                    self,
                )@.with_position(caller, post),
                Err(e) => r == Err::<u64, Error>(e) && *final(self) == *old(self),
            },
            final(self)@ == old(self)@.after(
                (TroveEvent {
                    account: caller,
                    now,
                    price: None,
                    call: TroveCall::Repay { amount },
                }),
            ),
    {
        let pre = self.position(caller);
        match pre.repay(now, amount) {
            Err(e) => Err(e),
            Ok((post, repaid)) => {
                proof {
                    lemma_operations_balanced(pre, now, None, 0, amount, 0);
                }
                self.commit(caller, post);
                Ok(repaid)
            },
        }
    }

    /// Closes `caller`'s trove, which must owe nothing; gives the collateral
    /// that goes back to the owner.
    pub fn close_trove(&mut self, caller: Address, now: u64) -> (r: Result<u64, Error>)
        requires
            old(self).wf(),
        ensures
            final(self).wf(),
            match old(self)@.position_of(caller).spec_close_trove(now) {
                Ok((post, collateral)) => r == Ok::<u64, Error>(collateral) && final(self)@
                    == old(self)@.with_position(caller, post),
                Err(e) => r == Err::<u64, Error>(e) && *final(self) == *old(self),
            },
            final(self)@ == old(self)@.after(
                (TroveEvent {
                    account: caller,
                    now,
                    price: None,
                    call: TroveCall::Close,
                }),
            ),
    {
        let pre = self.position(caller);
        match pre.close_trove(now) {
            Err(e) => Err(e),
            Ok((post, collateral)) => {
                proof {
                    lemma_operations_balanced(pre, now, None, 0, 0, 0);
                }
                self.commit(caller, post);
                Ok(collateral)
            },
        }
    }

    /// Whether the trove of `owner` can be liquidated at the feed's spot
    /// price. The answer depends on the trove and the price alone.
    pub fn is_liquidatable(&self, oracle: &PriceOracle, now: u64, owner: Address) -> (r: Result<
        bool,
        Error,
    >)
        requires
            self.wf(),
        ensures
            r == spec_is_liquidatable(self@.trove_of(owner), oracle@.quote(now)),
    {
        is_liquidatable(self.position(owner).trove, oracle.quote(now))
    }

    /// Liquidates the trove of `owner`, whole, and hands its debt and its
    /// collateral less the penalty to `pool`, as the caller `this` (the
    /// ledger's own identity). Where the pool refuses the offset, nothing is
    /// liquidated. A pool without deposits takes the offset and absorbs
    /// nothing.
    pub fn liquidate(
        &mut self,
        this: Address,
        pool: &mut StabilityPool,
        oracle: &PriceOracle,
        now: u64,
        owner: Address,
    ) -> (r: Result<Seizure, Error>)
        requires
            old(self).wf(),
            old(pool).wf(),
        ensures
            final(self).wf(),
            final(pool).wf(),
            match old(self)@.position_of(owner).spec_liquidate(oracle@.quote(now)) {
                Err(e) => r == Err::<Seizure, Error>(e) && *final(self) == *old(self)
                    && *final(pool) == *old(pool),
                Ok((post, seizure)) => match StabilityPool::spec_offset(
                    old(pool)@,
                    this,
                    seizure.debt,
                    seizure.collateral,
                ) {
                    Err(e) => r == Err::<Seizure, Error>(e) && *final(self) == *old(self)
                    && *final(pool) == *old(pool),
                    Ok(after) => r == Ok::<Seizure, Error>(seizure) && final(self)@ == old(
                        self,
                    )@.with_position(owner, post) && final(pool)@ == after,
                },
            },
            r is Ok ==> final(self)@ == old(self)@.after(
                (TroveEvent {
                    account: owner,
                    now,
                    price: oracle@.quote(now),
                    call: TroveCall::Liquidate,
                }),
            ),
            r is Err ==> *final(self) == *old(self) && *final(pool) == *old(pool),
    {
        let pre = self.position(owner);
        match pre.liquidate(oracle.quote(now)) {
            Err(e) => Err(e),
            Ok((post, seizure)) => match pool.offset(this, seizure.debt, seizure.collateral) {
                Err(e) => Err(e),
                Ok(()) => {
                    proof {
                        lemma_operations_balanced(pre, now, oracle@.quote(now), 0, 0, 0);
                    }
                    self.commit(owner, post);
                    Ok(seizure)
                },
            },
        }
    }

    /// The redemption fee rate: the base rate, but no less than the floor.
    pub fn get_redemption_fee(&self) -> (r: u64)
        ensures
            r == spec_redemption_fee(self@.base_rate),
    {
        redemption_fee(self.base_rate)
    }

    /// The collateral of the trove of `owner`.
    pub fn get_trove_collateral(&self, owner: Address) -> (r: u64)
        requires
            self.wf(),
        ensures
            r == self@.trove_of(owner).collateral,
    {
        self.position(owner).trove.collateral
    }

    /// The debt of the trove of `owner`, as of its last accrual.
    pub fn get_trove_debt(&self, owner: Address) -> (r: u64)
        requires
            self.wf(),
        ensures
            r == self@.trove_of(owner).debt,
    {
        self.position(owner).trove.debt
    }

    /// The interest rate of the trove of `owner`.
    pub fn get_trove_interest_rate(&self, owner: Address) -> (r: u64)
        requires
            self.wf(),
        ensures
            r == self@.trove_of(owner).interest_rate,
    {
        self.position(owner).trove.interest_rate
    }

    /// Whether `owner` has an active trove.
    pub fn get_trove_active(&self, owner: Address) -> (r: bool)
        requires
            self.wf(),
        ensures
            r == self@.trove_of(owner).active,
    {
        self.position(owner).trove.active
    }

    /// The collateral ratio of the trove of `owner` in percent, at the feed's
    /// spot price; zero where the trove owes nothing.
    pub fn get_collateral_ratio(&self, oracle: &PriceOracle, now: u64, owner: Address) -> (r:
        Result<u64, Error>)
        requires
            self.wf(),
        ensures
            r == spec_ratio_of(
                self@.trove_of(owner).collateral,
                self@.trove_of(owner).debt,
                oracle@.quote(now),
            ),
    {
        let trove = self.position(owner).trove;
        ratio_of(trove.collateral, trove.debt, oracle.quote(now))
    }

    /// The collateral of all active troves.
    pub fn get_total_collateral(&self) -> (r: u64)
        ensures
            r == self@.totals.collateral,
            self.wf() ==> r == sum_of(self@.troves, by_collateral()),
    {
        self.totals.collateral
    }

    /// The debt of all active troves, each as of its last accrual.
    pub fn get_total_debt(&self) -> (r: u64)
        ensures
            r == self@.totals.debt,
            self.wf() ==> r == sum_of(self@.troves, by_debt()),
    {
        self.totals.debt
    }

    /// The number of active troves.
    pub fn get_trove_count(&self) -> (r: u64)
        ensures
            r == self@.totals.troves,
            self.wf() ==> r == sum_of(self@.troves, by_count()),
    {
        self.totals.troves
    }

    /// The collateral ratio of the whole ledger in percent, at the feed's
    /// spot price; zero where no debt is owed.
    pub fn get_tcr(&self, oracle: &PriceOracle, now: u64) -> (r: Result<u64, Error>)
        ensures
            r == spec_ratio_of(self@.totals.collateral, self@.totals.debt, oracle@.quote(now)),
    {
        ratio_of(self.totals.collateral, self.totals.debt, oracle.quote(now))
    }
}

} // verus!
