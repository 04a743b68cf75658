//! The collateral token: a receipt for staked coins that gains value against
//! the coin it stands for, with a faucet that hands out test tokens.

use crate::accounts::{distinct_keys, lemma_put_distinct, put, value_of, AccountMap};
use crate::error::Error;
use crate::math::{lemma_product_fits, DECIMALS};
use crate::token::{TokenLedger, TokenView};
use odra_core::prelude::Address;
use vstd::prelude::*;

verus! {

/// What one use of the faucet mints: 10,000 tokens.
pub const FAUCET_AMOUNT: u64 = 10_000_000_000_000;

/// The seconds that must pass between two uses of the faucet by one account.
pub const FAUCET_COOLDOWN: u64 = 3600;

/// The number of decimals of the collateral token.
pub const STCSPR_DECIMALS: u8 = 9;

/// The exchange rate a new token starts with: one for one.
pub const INITIAL_EXCHANGE_RATE: u64 = 1_000_000_000;

/// The numerator of the rate's growth per second.
pub const RATE_GROWTH: u64 = 317;

/// The denominator of the rate's growth per second.
pub const RATE_GROWTH_DIVISOR: u128 = 31_536_000_000_000;

/// An account that last used the faucet at `last_claim` may use it at `now`.
pub open spec fn spec_faucet_ready(last_claim: u64, now: u64) -> bool {
    now >= last_claim + FAUCET_COOLDOWN
}

/// The seconds until an account that last used the faucet at `last_claim` may
/// use it again.
pub open spec fn spec_cooldown_remaining(last_claim: u64, now: u64) -> Result<u64, Error> {
    if spec_faucet_ready(last_claim, now) {
        Ok(0)
    } else if last_claim + FAUCET_COOLDOWN - now > u64::MAX {
        Err(Error::Arithmetic)
    } else {
        Ok((last_claim + FAUCET_COOLDOWN - now) as u64)
    }
}

/// By how much a rate of `base` has grown over `elapsed` seconds.
pub open spec fn spec_rate_increase(base: nat, elapsed: nat) -> nat {
    (base * elapsed * (RATE_GROWTH as nat)) / (RATE_GROWTH_DIVISOR as nat)
}

/// The exchange rate at `now`, for a rate of `base` set at `last_update`.
pub open spec fn spec_exchange_rate(base: u64, last_update: u64, now: u64) -> Result<u64, Error> {
    if now < last_update {
        Err(Error::Arithmetic)
    } else if base + spec_rate_increase(base as nat, (now - last_update) as nat) > u64::MAX {
        Err(Error::Arithmetic)
    } else {
        Ok((base + spec_rate_increase(base as nat, (now - last_update) as nat)) as u64)
    }
}

/// What `amount` of the token is worth in the coin it stands for, at `rate`.
pub open spec fn spec_cspr_value(amount: u64, rate: u64) -> Result<u64, Error> {
    if (amount * rate) / (DECIMALS as int) > u64::MAX {
        Err(Error::Arithmetic)
    } else {
        Ok(((amount * rate) / (DECIMALS as int)) as u64)
    }
}

/// How much of the token `amount` of the coin buys, at `rate`.
pub open spec fn spec_stcspr_for_cspr(amount: u64, rate: u64) -> Result<u64, Error> {
    if rate == 0 || (amount * DECIMALS) / (rate as int) > u64::MAX {
        Err(Error::Arithmetic)
    } else {
        Ok(((amount * DECIMALS) / (rate as int)) as u64)
    }
}

/// Whether an account that last used the faucet at `last_claim` may use it
/// at `now`.
pub fn faucet_ready(last_claim: u64, now: u64) -> (r: bool)
    ensures
        r == spec_faucet_ready(last_claim, now),
{
    (now as u128) >= (last_claim as u128) + (FAUCET_COOLDOWN as u128)
}

/// The seconds until the faucet may be used again.
pub fn cooldown_remaining(last_claim: u64, now: u64) -> (r: Result<u64, Error>)
    ensures
        r == spec_cooldown_remaining(last_claim, now),
{
    let ready_at: u128 = (last_claim as u128) + (FAUCET_COOLDOWN as u128);
    if (now as u128) >= ready_at {
        return Ok(0);
    }
    let remaining: u128 = ready_at - (now as u128);
    if remaining > u64::MAX as u128 {
        Err(Error::Arithmetic)
    } else {
        Ok(remaining as u64)
    }
}

/// The exchange rate at `now`.
pub fn exchange_rate(base: u64, last_update: u64, now: u64) -> (r: Result<u64, Error>)
    ensures
        r == spec_exchange_rate(base, last_update, now),
{
    if now < last_update {
        return Err(Error::Arithmetic);
    }
    let elapsed: u64 = now - last_update;
    proof {
        lemma_product_fits(base, elapsed);
    }
    let grown: u128 = (base as u128) * (elapsed as u128);
    match grown.checked_mul(RATE_GROWTH as u128) {
        None => {
            assert((base * elapsed * RATE_GROWTH) / (RATE_GROWTH_DIVISOR as int) > u64::MAX);
            Err(Error::Arithmetic)
        },
        Some(product) => {
            let increase: u128 = product / RATE_GROWTH_DIVISOR;
            if increase > (u64::MAX - base) as u128 {
                Err(Error::Arithmetic)
            } else {
                Ok(base + (increase as u64))
            }
        },
    }
}

/// What `amount` of the token is worth in the coin it stands for, at `rate`.
pub fn cspr_value(amount: u64, rate: u64) -> (r: Result<u64, Error>)
    ensures
        r == spec_cspr_value(amount, rate),
{
    proof {
        lemma_product_fits(amount, rate);
    }
    let value: u128 = ((amount as u128) * (rate as u128)) / (DECIMALS as u128);
    if value > u64::MAX as u128 {
        Err(Error::Arithmetic)
    } else {
        Ok(value as u64)
    }
}

/// How much of the token `amount` of the coin buys, at `rate`.
pub fn stcspr_for_cspr(amount: u64, rate: u64) -> (r: Result<u64, Error>)
    ensures
        r == spec_stcspr_for_cspr(amount, rate),
{
    if rate == 0 {
        return Err(Error::Arithmetic);
    }
    proof {
        lemma_product_fits(amount, DECIMALS);
    }
    let tokens: u128 = ((amount as u128) * (DECIMALS as u128)) / (rate as u128);
    if tokens > u64::MAX as u128 {
        Err(Error::Arithmetic)
    } else {
        Ok(tokens as u64)
    }
}

/// What the collateral token holds.
pub struct StCSPRView {
    pub token: TokenView,
    /// When each account last used the faucet.
    pub faucet_cooldown: Seq<(Address, u64)>,
    pub exchange_rate: u64,
    pub last_rate_update: u64,
}

impl StCSPRView {
    /// When `account` last used the faucet; zero where it never did.
    pub open spec fn last_claim(self, account: Address) -> u64 {
        match value_of(self.faucet_cooldown, account) {
            Some(t) => t,
            None => 0,
        }
    }

    /// No account is listed twice, and the token ledger is consistent.
    pub open spec fn consistent(self) -> bool {
        distinct_keys(self.faucet_cooldown) && self.token.consistent()
    }
}

/// The collateral token.
pub struct StCSPR {
    ledger: TokenLedger,
    faucet_cooldown: AccountMap<Address, u64>,
    exchange_rate: u64,
    last_rate_update: u64,
}

impl View for StCSPR {
    type V = StCSPRView;

    closed spec fn view(&self) -> StCSPRView {
        StCSPRView {
            token: self.ledger@,
            faucet_cooldown: self.faucet_cooldown@,
            exchange_rate: self.exchange_rate,
            last_rate_update: self.last_rate_update,
        }
    }
}

impl StCSPR {
    /// The token is consistent.
    pub open spec fn wf(&self) -> bool {
        self@.consistent()
    }

    /// A new token without supply, at the initial exchange rate as of `now`.
    pub fn init(now: u64) -> (token: Self)
        ensures
            token.wf(),
            token@ == (StCSPRView {
                token: TokenView {
                    total_supply: 0,
                    balances: Seq::empty(),
                    allowances: Seq::empty(),
                },
                faucet_cooldown: Seq::empty(),
                exchange_rate: INITIAL_EXCHANGE_RATE,
                last_rate_update: now,
            }),
    {
        StCSPR {
            ledger: TokenLedger::new(),
            faucet_cooldown: AccountMap::new(),
            exchange_rate: INITIAL_EXCHANGE_RATE,
            last_rate_update: now,
        }
    }

    /// What `faucet` does to a token `pre`.
    pub open spec fn spec_faucet(pre: StCSPRView, caller: Address, now: u64) -> Result<
        StCSPRView,
        Error,
    > {
        if !spec_faucet_ready(pre.last_claim(caller), now) {
            Err(Error::FaucetCooldown)
        } else {
            match pre.token.spec_mint(caller, FAUCET_AMOUNT) {
                Err(e) => Err(e),
                Ok(token) => Ok(
                    StCSPRView {
                        token,
                        faucet_cooldown: put(pre.faucet_cooldown, caller, now),
                        ..pre
                    },
                ),
            }
        }
    }

    /// Mints `FAUCET_AMOUNT` to `caller`, at most once per `FAUCET_COOLDOWN`
    /// seconds.
    pub fn faucet(&mut self, caller: Address, now: u64) -> (r: Result<(), Error>)
        requires
            old(self).wf(),
        ensures
            final(self).wf(),
            match Self::spec_faucet(old(self)@, caller, now) {
                Ok(after) => r == Ok::<(), Error>(()) && final(self)@ == after,
                Err(e) => r == Err::<(), Error>(e) && *final(self) == *old(self),
            },
    {
        let last_claim: u64 = match self.faucet_cooldown.get(&caller) {
            Some(t) => t,
            None => 0,
        };
        if !faucet_ready(last_claim, now) {
            return Err(Error::FaucetCooldown);
        }
        match self.ledger.mint(caller, FAUCET_AMOUNT) {
            Err(e) => Err(e),
            Ok(()) => {
                proof {
                    lemma_put_distinct(self@.faucet_cooldown, caller, now);
                }
                self.faucet_cooldown.set(caller, now);
                Ok(())
            },
        }
    }

    /// The seconds until `user` may use the faucet again.
    pub fn faucet_cooldown_remaining(&self, user: Address, now: u64) -> (r: Result<u64, Error>)
        requires
            self.wf(),
        ensures
            r == spec_cooldown_remaining(self@.last_claim(user), now),
    {
        let last_claim: u64 = match self.faucet_cooldown.get(&user) {
            Some(t) => t,
            None => 0,
        };
        cooldown_remaining(last_claim, now)
    }

    /// The exchange rate at `now`: the token gains on the coin as time passes.
    pub fn get_exchange_rate(&self, now: u64) -> (r: Result<u64, Error>)
        ensures
            r == spec_exchange_rate(self@.exchange_rate, self@.last_rate_update, now),
    {
        exchange_rate(self.exchange_rate, self.last_rate_update, now)
    }

    /// What `stcspr_amount` of the token is worth in the coin, at `now`.
    pub fn get_cspr_value(&self, stcspr_amount: u64, now: u64) -> (r: Result<u64, Error>)
        ensures
            r == match spec_exchange_rate(self@.exchange_rate, self@.last_rate_update, now) {
                Err(e) => Err::<u64, Error>(e),
                Ok(rate) => spec_cspr_value(stcspr_amount, rate),
            },
    {
        match self.get_exchange_rate(now) {
            Err(e) => Err(e),
            Ok(rate) => cspr_value(stcspr_amount, rate),
        }
    }

    /// How much of the token `cspr_amount` of the coin buys, at `now`.
    pub fn get_stcspr_for_cspr(&self, cspr_amount: u64, now: u64) -> (r: Result<u64, Error>)
        ensures
            r == match spec_exchange_rate(self@.exchange_rate, self@.last_rate_update, now) {
                Err(e) => Err::<u64, Error>(e),
                Ok(rate) => spec_stcspr_for_cspr(cspr_amount, rate),
            },
    {
        match self.get_exchange_rate(now) {
            Err(e) => Err(e),
            Ok(rate) => stcspr_for_cspr(cspr_amount, rate),
        }
    }

    /// The token's name.
    pub fn name(&self) -> (r: String)
        ensures
            r@ == "Staked CSPR"@,
    {
        "Staked CSPR".to_owned()
    }

    /// The token's symbol.
    pub fn symbol(&self) -> (r: String)
        ensures
            r@ == "stCSPR"@,
    {
        "stCSPR".to_owned()
    }

    /// The number of decimals that amounts carry.
    pub fn decimals(&self) -> (r: u8)
        ensures
            r == STCSPR_DECIMALS,
    {
        STCSPR_DECIMALS
    }

    /// The number of tokens in existence.
    pub fn total_supply(&self) -> (r: u64)
        ensures
            r == self@.token.total_supply,
    {
        self.ledger.total_supply()
    }

    /// The balance of `address`.
    pub fn balance_of(&self, address: Address) -> (r: u64)
        requires
            self.wf(),
        ensures
            r == self@.token.balance_of(address),
    {
        self.ledger.balance_of(address)
    }

    /// What `spender` may still move out of the balance of `owner`.
    pub fn allowance(&self, owner: Address, spender: Address) -> (r: u64)
        requires
            self.wf(),
        ensures
            r == self@.token.allowance(owner, spender),
    {
        self.ledger.allowance(owner, spender)
    }

    /// Moves `amount` from `caller` to `to`.
    pub fn transfer(&mut self, caller: Address, to: Address, amount: u64) -> (r: Result<(), Error>)
        requires
            old(self).wf(),
        ensures
            final(self).wf(),
            match old(self)@.token.spec_transfer(caller, to, amount) {
                Ok(token) => r == Ok::<(), Error>(()) && final(self)@ == (StCSPRView {
                    token,
                    ..old(self)@
                }),
                Err(e) => r == Err::<(), Error>(e) && *final(self) == *old(self),
            },
    {
        self.ledger.transfer(caller, to, amount)
    }

    /// Lets `spender` move up to `amount` out of the balance of `caller`.
    pub fn approve(&mut self, caller: Address, spender: Address, amount: u64)
        requires
            old(self).wf(),
        ensures
            final(self).wf(),
            final(self)@ == (StCSPRView {
                token: old(self)@.token.spec_approve(caller, spender, amount),
                ..old(self)@
            }),
    {
        self.ledger.approve(caller, spender, amount)
    }

    /// Moves `amount` from `from` to `to` on the allowance that `from` gave
    /// `caller`.
    pub fn transfer_from(&mut self, caller: Address, from: Address, to: Address, amount: u64) -> (r:
        Result<(), Error>)
        requires
            old(self).wf(),
        ensures
            final(self).wf(),
            match old(self)@.token.spec_transfer_from(caller, from, to, amount) {
                Ok(token) => r == Ok::<(), Error>(()) && final(self)@ == (StCSPRView {
                    token,
                    ..old(self)@
                }),
                Err(e) => r == Err::<(), Error>(e) && *final(self) == *old(self),
            },
    {
        self.ledger.transfer_from(caller, from, to, amount)
    }
}

} // verus!
