//! The fungible-token ledger that both of the protocol's tokens keep:
//! balances, allowances and the total supply.

use crate::accounts::{
    distinct_keys, lemma_put_distinct, lemma_put_sum, lemma_put_value, put, sum_of, value_of,
    AccountMap,
};
use crate::error::Error;
use odra_core::prelude::Address;
use vstd::prelude::*;

verus! {

/// `balance` with `amount` added; a sum that does not fit is an arithmetic fault.
pub open spec fn spec_credit(balance: u64, amount: u64) -> Result<u64, Error> {
    if balance + amount > u64::MAX {
        Err(Error::Arithmetic)
    } else {
        Ok((balance + amount) as u64)
    }
}

/// `balance` with `amount` taken off; the balance must hold it.
pub open spec fn spec_debit(balance: u64, amount: u64) -> Result<u64, Error> {
    if balance < amount {
        Err(Error::InsufficientBalance)
    } else {
        Ok((balance - amount) as u64)
    }
}

/// `allowance` with `amount` spent; the allowance must cover it.
pub open spec fn spec_spend(allowance: u64, amount: u64) -> Result<u64, Error> {
    if allowance < amount {
        Err(Error::InsufficientAllowance)
    } else {
        Ok((allowance - amount) as u64)
    }
}

/// Adds `amount` to `balance`.
pub fn credit(balance: u64, amount: u64) -> (r: Result<u64, Error>)
    ensures
        r == spec_credit(balance, amount),
{
    match balance.checked_add(amount) {
        Some(b) => Ok(b),
        None => Err(Error::Arithmetic),
    }
}

/// Takes `amount` off `balance`.
pub fn debit(balance: u64, amount: u64) -> (r: Result<u64, Error>)
    ensures
        r == spec_debit(balance, amount),
{
    if balance < amount {
        Err(Error::InsufficientBalance)
    } else {
        Ok(balance - amount)
    }
}

/// Spends `amount` of `allowance`.
pub fn spend(allowance: u64, amount: u64) -> (r: Result<u64, Error>)
    ensures
        r == spec_spend(allowance, amount),
{
    if allowance < amount {
        Err(Error::InsufficientAllowance)
    } else {
        Ok(allowance - amount)
    }
}

/// A balance, as a weight to sum by.
pub open spec fn by_amount() -> spec_fn(u64) -> nat {
    |amount: u64| amount as nat
}

/// What a token ledger holds.
pub struct TokenView {
    pub total_supply: u64,
    /// One record per account that ever held a balance.
    pub balances: Seq<(Address, u64)>,
    /// One record per pair of an owner and a spender that an approval named.
    pub allowances: Seq<((Address, Address), u64)>,
}

impl TokenView {
    /// The balance of `account`.
    pub open spec fn balance_of(self, account: Address) -> u64 {
        match value_of(self.balances, account) {
            Some(b) => b,
            None => 0,
        }
    }

    /// What `spender` may still move out of the balance of `owner`.
    pub open spec fn allowance(self, owner: Address, spender: Address) -> u64 {
        match value_of(self.allowances, (owner, spender)) {
            Some(a) => a,
            None => 0,
        }
    }

    /// No account and no pair has two records, and the total supply is the
    /// sum of the balances.
    pub open spec fn consistent(self) -> bool {
        &&& distinct_keys(self.balances)
        &&& distinct_keys(self.allowances)
        &&& self.total_supply == sum_of(self.balances, by_amount())
    }

    /// The ledger with `amount` as the balance of `account`.
    pub open spec fn with_balance(self, account: Address, amount: u64) -> TokenView {
        TokenView { balances: put(self.balances, account, amount), ..self }
    }

    /// Minting `amount` to `to`: the balance and the supply rise by it.
    pub open spec fn spec_mint(self, to: Address, amount: u64) -> Result<TokenView, Error> {
        match (spec_credit(self.balance_of(to), amount), spec_credit(self.total_supply, amount)) {
            (Ok(balance), Ok(supply)) => Ok(
                TokenView { total_supply: supply, ..self.with_balance(to, balance) },
            ),
            (Err(e), _) => Err(e),
            (_, Err(e)) => Err(e),
        }
    }

    /// Burning `amount` from `from`: the balance, which must hold it, and the
    /// supply fall by it.
    pub open spec fn spec_burn(self, from: Address, amount: u64) -> Result<TokenView, Error> {
        match spec_debit(self.balance_of(from), amount) {
            Err(e) => Err(e),
            Ok(balance) => if self.total_supply < amount {
                Err(Error::Arithmetic)
            } else {
                Ok(
                    TokenView {
                        total_supply: (self.total_supply - amount) as u64,
                        ..self.with_balance(from, balance)
                    },
                )
            },
        }
    }

    /// Moving `amount` from `from` to `to`: `from` must hold it. It is taken
    /// off first and added after, so that moving to oneself changes nothing.
    pub open spec fn spec_transfer(self, from: Address, to: Address, amount: u64) -> Result<
        TokenView,
        Error,
    > {
        match spec_debit(self.balance_of(from), amount) {
            Err(e) => Err(e),
            Ok(left) => {
                let taken = self.with_balance(from, left);
                match spec_credit(taken.balance_of(to), amount) {
                    Err(e) => Err(e),
                    Ok(received) => Ok(taken.with_balance(to, received)),
                }
            },
        }
    }

    /// `owner` lets `spender` move up to `amount`, whatever was allowed before.
    pub open spec fn spec_approve(
        self,
        owner: Address,
        spender: Address,
        amount: u64,
    ) -> TokenView {
        TokenView { allowances: put(self.allowances, (owner, spender), amount), ..self }
    }

    /// `spender` moving `amount` from `from` to `to`: the allowance must
    /// cover it and falls by it, and `from` must hold it.
    pub open spec fn spec_transfer_from(
        self,
        spender: Address,
        from: Address,
        to: Address,
        amount: u64,
    ) -> Result<TokenView, Error> {
        match spec_spend(self.allowance(from, spender), amount) {
            Err(e) => Err(e),
            Ok(left) => self.spec_approve(from, spender, left).spec_transfer(from, to, amount),
        }
    }
}

/// Setting the balance of one account leaves the balance of every other
/// account as it was.
pub proof fn lemma_other_balances_untouched(
    ledger: TokenView,
    account: Address,
    amount: u64,
    other: Address,
)
    requires
        ledger.consistent(),
    ensures
        ledger.with_balance(account, amount).balance_of(other) == if other == account {
            amount
        } else {
            ledger.balance_of(other)
        },
{
    lemma_put_value(ledger.balances, account, amount, other);
}

/// A transfer neither makes nor destroys tokens, and in a consistent ledger
/// it never fails for want of room in the receiving balance.
pub proof fn lemma_transfer_keeps_supply(ledger: TokenView, from: Address, to: Address, amount: u64)
    requires
        ledger.consistent(),
        ledger.balance_of(from) >= amount,
    ensures
        ledger.spec_transfer(from, to, amount) is Ok,
        ledger.spec_transfer(from, to, amount)->Ok_0.consistent(),
        ledger.spec_transfer(from, to, amount)->Ok_0.total_supply == ledger.total_supply,
{
    let left = (ledger.balance_of(from) - amount) as u64;
    let taken = ledger.with_balance(from, left);
    lemma_put_distinct(ledger.balances, from, left);
    lemma_put_sum(ledger.balances, from, left, by_amount());
    let held = taken.balance_of(to);
    lemma_put_sum(taken.balances, to, 0, by_amount());
    let credited = (held + amount) as u64;
    lemma_put_distinct(taken.balances, to, credited);
    lemma_put_sum(taken.balances, to, credited, by_amount());
}

/// Minting and burning keep a consistent ledger consistent.
pub proof fn lemma_mint_burn_consistent(ledger: TokenView, account: Address, amount: u64)
    requires
        ledger.consistent(),
    ensures
        ledger.spec_mint(account, amount) matches Ok(after) ==> after.consistent(),
        ledger.spec_burn(account, amount) matches Ok(after) ==> after.consistent(),
{
    if let Ok(after) = ledger.spec_mint(account, amount) {
        let credited = (ledger.balance_of(account) + amount) as u64;
        lemma_put_distinct(ledger.balances, account, credited);
        lemma_put_sum(ledger.balances, account, credited, by_amount());
    }
    if let Ok(after) = ledger.spec_burn(account, amount) {
        let left = (ledger.balance_of(account) - amount) as u64;
        lemma_put_distinct(ledger.balances, account, left);
        lemma_put_sum(ledger.balances, account, left, by_amount());
    }
}

/// Balances, allowances and the total supply of one token.
pub struct TokenLedger {
    total_supply: u64,
    balances: AccountMap<Address, u64>,
    allowances: AccountMap<(Address, Address), u64>,
}

impl View for TokenLedger {
    type V = TokenView;

    closed spec fn view(&self) -> TokenView {
        TokenView {
            total_supply: self.total_supply,
            balances: self.balances@,
            allowances: self.allowances@,
        }
    }
}

impl TokenLedger {
    /// The ledger is consistent.
    pub open spec fn wf(&self) -> bool {
        self@.consistent()
    }

    /// A ledger without tokens.
    pub fn new() -> (ledger: Self)
        ensures
            ledger.wf(),
            ledger@ == (TokenView {
                total_supply: 0,
                balances: Seq::empty(),
                allowances: Seq::empty(),
            }),
    {
        TokenLedger { total_supply: 0, balances: AccountMap::new(), allowances: AccountMap::new() }
    }

    /// The number of tokens in existence.
    pub fn total_supply(&self) -> (r: u64)
        ensures
            r == self@.total_supply,
    {
        self.total_supply
    }

    /// The balance of `account`.
    pub fn balance_of(&self, account: Address) -> (r: u64)
        requires
            self.wf(),
        ensures
            r == self@.balance_of(account),
    {
        match self.balances.get(&account) {
            Some(b) => b,
            None => 0,
        }
    }

    /// What `spender` may still move out of the balance of `owner`.
    pub fn allowance(&self, owner: Address, spender: Address) -> (r: u64)
        requires
            self.wf(),
        ensures
            r == self@.allowance(owner, spender),
    {
        match self.allowances.get(&(owner, spender)) {
            Some(a) => a,
            None => 0,
        }
    }

    /// Mints `amount` to `to`.
    pub fn mint(&mut self, to: Address, amount: u64) -> (r: Result<(), Error>)
        requires
            old(self).wf(),
        ensures
            final(self).wf(),
            match old(self)@.spec_mint(to, amount) {
                Ok(after) => r == Ok::<(), Error>(()) && final(self)@ == after,
                Err(e) => r == Err::<(), Error>(e) && *final(self) == *old(self),
            },
    {
        let credited: u64 = match credit(self.balance_of(to), amount) {
            Ok(b) => b,
            Err(e) => {
                return Err(e);
            },
        };
        let supply: u64 = match credit(self.total_supply, amount) {
            Ok(s) => s,
            Err(e) => {
                return Err(e);
            },
        };
        proof {
            lemma_mint_burn_consistent(self@, to, amount);
        }
        self.balances.set(to, credited);
        self.total_supply = supply;
        Ok(())
    }

    /// Burns `amount` from `from`.
    pub fn burn(&mut self, from: Address, amount: u64) -> (r: Result<(), Error>)
        requires
            old(self).wf(),
        ensures
            final(self).wf(),
            match old(self)@.spec_burn(from, amount) {
                Ok(after) => r == Ok::<(), Error>(()) && final(self)@ == after,
                Err(e) => r == Err::<(), Error>(e) && *final(self) == *old(self),
            },
    {
        let left: u64 = match debit(self.balance_of(from), amount) {
            Ok(b) => b,
            Err(e) => {
                return Err(e);
            },
        };
        let supply: u64 = match self.total_supply.checked_sub(amount) {
            Some(s) => s,
            None => {
                return Err(Error::Arithmetic);
            },
        };
        proof {
            lemma_mint_burn_consistent(self@, from, amount);
        }
        self.balances.set(from, left);
        self.total_supply = supply;
        Ok(())
    }

    /// Moves `amount` from `from` to `to`.
    pub fn transfer(&mut self, from: Address, to: Address, amount: u64) -> (r: Result<(), Error>)
        requires
            old(self).wf(),
        ensures
            final(self).wf(),
            match old(self)@.spec_transfer(from, to, amount) {
                Ok(after) => r == Ok::<(), Error>(()) && final(self)@ == after,
                Err(e) => r == Err::<(), Error>(e) && *final(self) == *old(self),
            },
            r is Ok <==> old(self)@.balance_of(from) >= amount,
            final(self)@.total_supply == old(self)@.total_supply,
    {
        let left: u64 = match debit(self.balance_of(from), amount) {
            Ok(b) => b,
            Err(e) => {
                return Err(e);
            },
        };
        proof {
            lemma_transfer_keeps_supply(self@, from, to, amount);
            lemma_put_distinct(self@.balances, from, left);
        }
        self.balances.set(from, left);
        let held: u64 = match self.balances.get(&to) {
            Some(b) => b,
            None => 0,
        };
        self.balances.set(to, held + amount);
        Ok(())
    }

    /// Lets `spender` move up to `amount` out of the balance of `owner`.
    pub fn approve(&mut self, owner: Address, spender: Address, amount: u64)
        requires
            old(self).wf(),
        ensures
            final(self).wf(),
            final(self)@ == old(self)@.spec_approve(owner, spender, amount),
    {
        proof {
            lemma_put_distinct(self@.allowances, (owner, spender), amount);
        }
        self.allowances.set((owner, spender), amount);
    }

    /// Moves `amount` from `from` to `to` on the allowance that `from` gave
    /// `spender`.
    pub fn transfer_from(
        &mut self,
        spender: Address,
        from: Address,
        to: Address,
        amount: u64,
    ) -> (r: Result<(), Error>)
        requires
            old(self).wf(),
        ensures
            final(self).wf(),
            match old(self)@.spec_transfer_from(spender, from, to, amount) {
                Ok(after) => r == Ok::<(), Error>(()) && final(self)@ == after,
                Err(e) => r == Err::<(), Error>(e) && *final(self) == *old(self),
            },
            final(self)@.total_supply == old(self)@.total_supply,
    {
        let left: u64 = match spend(self.allowance(from, spender), amount) {
            Ok(a) => a,
            Err(e) => {
                return Err(e);
            },
        };
        match debit(self.balance_of(from), amount) {
            Ok(_) => {},
            Err(e) => {
                return Err(e);
            },
        }
        self.approve(from, spender, left);
        self.transfer(from, to, amount)
    }
}

} // verus!
