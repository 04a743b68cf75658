//! The debt token: a fungible token that only an allow-listed set of minters
//! can mint and burn. The owner keeps the list.

use crate::accounts::{distinct_keys, put, value_of, AccountMap, Key};
use crate::error::Error;
use crate::token::{TokenLedger, TokenView};
use odra_core::prelude::Address;
use vstd::prelude::*;

verus! {

/// The number of decimals of the debt token.
pub const CUSD_DECIMALS: u8 = 9;

/// What the debt token holds.
pub struct CasperUSDView {
    pub owner: Address,
    pub minters: Seq<(Address, bool)>,
    pub token: TokenView,
}

impl CasperUSDView {
    /// `who` may mint and burn.
    pub open spec fn is_minter(self, who: Address) -> bool {
        value_of(self.minters, who) == Some(true)
    }

    /// No minter is listed twice, and the token ledger is consistent.
    pub open spec fn consistent(self) -> bool {
        distinct_keys(self.minters) && self.token.consistent()
    }
}

/// The debt token.
pub struct CasperUSD {
    owner: Address,
    minters: AccountMap<Address, bool>,
    ledger: TokenLedger,
}

impl View for CasperUSD {
    type V = CasperUSDView;

    closed spec fn view(&self) -> CasperUSDView {
        CasperUSDView { owner: self.owner, minters: self.minters@, token: self.ledger@ }
    }
}

impl CasperUSD {
    /// The token is consistent.
    pub open spec fn wf(&self) -> bool {
        self@.consistent()
    }

    /// A new token without supply, owned by `caller`, who is its first minter.
    pub fn init(caller: Address) -> (token: Self)
        ensures
            token.wf(),
            token@ == (CasperUSDView {
                owner: caller,
                minters: seq![(caller, true)],
                token: TokenView {
                    total_supply: 0,
                    balances: Seq::empty(),
                    allowances: Seq::empty(),
                },
            }),
    {
        let mut minters: AccountMap<Address, bool> = AccountMap::new();
        minters.set(caller, true);
        assert(minters@ =~= seq![(caller, true)]);
        CasperUSD { owner: caller, minters, ledger: TokenLedger::new() }
    }

    /// Lets `minter` mint and burn. Only the owner may do this.
    pub fn add_minter(&mut self, caller: Address, minter: Address) -> (r: Result<(), Error>)
        requires
            old(self).wf(),
        ensures
            final(self).wf(),
            r is Ok <==> caller == old(self)@.owner,
            r is Err ==> r == Err::<(), Error>(Error::NotOwner) && *final(self) == *old(self),
            r is Ok ==> final(self)@ == (CasperUSDView {
                minters: put(old(self)@.minters, minter, true),
                ..old(self)@
            }),
    {
        if !caller.same(&self.owner) {
            return Err(Error::NotOwner);
        }
        self.minters.set(minter, true);
        Ok(())
    }

    /// Stops `minter` from minting and burning. Only the owner may do this.
    pub fn remove_minter(&mut self, caller: Address, minter: Address) -> (r: Result<(), Error>)
        requires
            old(self).wf(),
        ensures
            final(self).wf(),
            r is Ok <==> caller == old(self)@.owner,
            r is Err ==> r == Err::<(), Error>(Error::NotOwner) && *final(self) == *old(self),
            r is Ok ==> final(self)@ == (CasperUSDView {
                minters: put(old(self)@.minters, minter, false),
                ..old(self)@
            }),
    {
        if !caller.same(&self.owner) {
            return Err(Error::NotOwner);
        }
        self.minters.set(minter, false);
        Ok(())
    }

    /// Whether `who` may mint and burn.
    pub fn is_minter(&self, who: Address) -> (r: bool)
        requires
            self.wf(),
        ensures
            r == self@.is_minter(who),
    {
        match self.minters.get(&who) {
            Some(true) => true,
            _ => false,
        }
    }

    /// What `mint` does to a token `pre`.
    pub open spec fn spec_mint(
        pre: CasperUSDView,
        caller: Address,
        to: Address,
        amount: u64,
    ) -> Result<CasperUSDView, Error> {
        if !pre.is_minter(caller) {
            Err(Error::NotMinter)
        } else {
            match pre.token.spec_mint(to, amount) {
                Err(e) => Err(e),
                Ok(token) => Ok(CasperUSDView { token, ..pre }),
            }
        }
    }

    /// Mints `amount` to `to`. Only a minter may do this.
    pub fn mint(&mut self, caller: Address, to: Address, amount: u64) -> (r: Result<(), Error>)
        requires
            old(self).wf(),
        ensures
            final(self).wf(),
            match Self::spec_mint(old(self)@, caller, to, amount) {
                Ok(after) => r == Ok::<(), Error>(()) && final(self)@ == after,
                Err(e) => r == Err::<(), Error>(e) && *final(self) == *old(self),
            },
    {
        if !self.is_minter(caller) {
            return Err(Error::NotMinter);
        }
        self.ledger.mint(to, amount)
    }

    /// What `burn` does to a token `pre`.
    pub open spec fn spec_burn(
        pre: CasperUSDView,
        caller: Address,
        from: Address,
        amount: u64,
    ) -> Result<CasperUSDView, Error> {
        if !pre.is_minter(caller) {
            Err(Error::NotMinter)
        } else {
            match pre.token.spec_burn(from, amount) {
                Err(e) => Err(e),
                Ok(token) => Ok(CasperUSDView { token, ..pre }),
            }
        }
    }

    /// Burns `amount` from `from`. Only a minter may do this.
    pub fn burn(&mut self, caller: Address, from: Address, amount: u64) -> (r: Result<(), Error>)
        requires
            old(self).wf(),
        ensures
            final(self).wf(),
            match Self::spec_burn(old(self)@, caller, from, amount) {
                Ok(after) => r == Ok::<(), Error>(()) && final(self)@ == after,
                Err(e) => r == Err::<(), Error>(e) && *final(self) == *old(self),
            },
    {
        if !self.is_minter(caller) {
            return Err(Error::NotMinter);
        }
        self.ledger.burn(from, amount)
    }

    /// The token's name.
    pub fn name(&self) -> (r: String)
        ensures
            r@ == "CasperUSD"@,
    {
        "CasperUSD".to_owned()
    }

    /// The token's symbol.
    pub fn symbol(&self) -> (r: String)
        ensures
            r@ == "cUSD"@,
    {
        "cUSD".to_owned()
    }

    /// The number of decimals that amounts carry.
    pub fn decimals(&self) -> (r: u8)
        ensures
            r == CUSD_DECIMALS,
    {
        CUSD_DECIMALS
    }

    /// The number of tokens in existence.
    pub fn total_supply(&self) -> (r: u64)
        ensures
            r == self@.token.total_supply,
    {
        self.ledger.total_supply()
    }

    /// The balance of `address`.
    pub fn balance_of(&self, address: Address) -> (r: u64)
        requires
            self.wf(),
        ensures
            r == self@.token.balance_of(address),
    {
        self.ledger.balance_of(address)
    }

    /// What `spender` may still move out of the balance of `owner`.
    pub fn allowance(&self, owner: Address, spender: Address) -> (r: u64)
        requires
            self.wf(),
        ensures
            r == self@.token.allowance(owner, spender),
    {
        self.ledger.allowance(owner, spender)
    }

    /// Moves `amount` from `caller` to `to`.
    pub fn transfer(&mut self, caller: Address, to: Address, amount: u64) -> (r: Result<(), Error>)
        requires
            old(self).wf(),
        ensures
            final(self).wf(),
            match old(self)@.token.spec_transfer(caller, to, amount) {
                Ok(token) => r == Ok::<(), Error>(()) && final(self)@ == (CasperUSDView {
                    token,
                    ..old(self)@
                }),
                Err(e) => r == Err::<(), Error>(e) && *final(self) == *old(self),
            },
    {
        self.ledger.transfer(caller, to, amount)
    }

    /// Lets `spender` move up to `amount` out of the balance of `caller`.
    pub fn approve(&mut self, caller: Address, spender: Address, amount: u64)
        requires
            old(self).wf(),
        ensures
            final(self).wf(),
            final(self)@ == (CasperUSDView {
                token: old(self)@.token.spec_approve(caller, spender, amount),
                ..old(self)@
            }),
    {
        self.ledger.approve(caller, spender, amount)
    }

    /// Moves `amount` from `from` to `to` on the allowance that `from` gave
    /// `caller`.
    pub fn transfer_from(&mut self, caller: Address, from: Address, to: Address, amount: u64) -> (r:
        Result<(), Error>)
        requires
            old(self).wf(),
        ensures
            final(self).wf(),
            match old(self)@.token.spec_transfer_from(caller, from, to, amount) {
                Ok(token) => r == Ok::<(), Error>(()) && final(self)@ == (CasperUSDView {
                    token,
                    ..old(self)@
                }),
                Err(e) => r == Err::<(), Error>(e) && *final(self) == *old(self),
            },
    {
        self.ledger.transfer_from(caller, from, to, amount)
    }
}

} // verus!
