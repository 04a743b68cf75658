use casper_usd::error::Error;
use casper_usd::stablecoin::{CasperUSD, CUSD_DECIMALS};
use casper_usd::token::TokenLedger;
use odra_core::casper_types::account::AccountHash;
use odra_core::prelude::Address;

fn account(n: u8) -> Address {
    Address::Account(AccountHash::new([n; 32]))
}

fn owner() -> Address {
    account(1)
}

/// A token with 1000 minted to account 10.
fn funded() -> CasperUSD {
    let mut token = CasperUSD::init(owner());
    token.mint(owner(), account(10), 1000).unwrap();
    token
}

#[test]
fn new_stablecoin_has_no_supply_and_its_owner_mints() {
    let token = CasperUSD::init(owner());
    assert_eq!(token.name(), "CasperUSD");
    assert_eq!(token.symbol(), "cUSD");
    assert_eq!(token.decimals(), 9);
    assert_eq!(CUSD_DECIMALS, 9);
    assert_eq!(token.total_supply(), 0);
    assert_eq!(token.balance_of(owner()), 0);
    assert_eq!(token.allowance(owner(), account(2)), 0);
    assert!(token.is_minter(owner()));
    assert!(!token.is_minter(account(2)));
}

#[test]
fn owner_keeps_the_list_of_minters() {
    let (manager, stranger) = (account(2), account(3));
    let mut token = CasperUSD::init(owner());
    assert_eq!(token.add_minter(stranger, manager), Err(Error::NotOwner));
    assert_eq!(token.add_minter(manager, manager), Err(Error::NotOwner));
    assert!(!token.is_minter(manager));
    assert_eq!(token.add_minter(owner(), manager), Ok(()));
    assert!(token.is_minter(manager));
    assert_eq!(token.mint(manager, stranger, 5), Ok(()));
    // A minter is not the owner.
    assert_eq!(token.remove_minter(manager, owner()), Err(Error::NotOwner));
    assert_eq!(token.remove_minter(owner(), manager), Ok(()));
    assert!(!token.is_minter(manager));
    assert_eq!(token.mint(manager, stranger, 5), Err(Error::NotMinter));
    assert_eq!(token.burn(manager, stranger, 5), Err(Error::NotMinter));
    assert_eq!(token.balance_of(stranger), 5);
}

#[test]
fn mint_raises_balance_and_supply() {
    let mut token = CasperUSD::init(owner());
    assert_eq!(token.mint(owner(), account(10), 1000), Ok(()));
    assert_eq!(token.mint(owner(), account(11), 500), Ok(()));
    assert_eq!(token.mint(owner(), account(10), 1), Ok(()));
    assert_eq!(token.balance_of(account(10)), 1001);
    assert_eq!(token.balance_of(account(11)), 500);
    assert_eq!(token.total_supply(), 1501);
    assert_eq!(token.mint(account(10), account(10), 1), Err(Error::NotMinter));
    assert_eq!(token.total_supply(), 1501);
}

#[test]
fn mint_reports_a_supply_that_does_not_fit() {
    let mut token = CasperUSD::init(owner());
    token.mint(owner(), account(10), u64::MAX).unwrap();
    assert_eq!(token.mint(owner(), account(11), 1), Err(Error::Arithmetic));
    assert_eq!(token.mint(owner(), account(10), 1), Err(Error::Arithmetic));
    assert_eq!(token.balance_of(account(11)), 0);
    assert_eq!(token.total_supply(), u64::MAX);
}

#[test]
fn burn_lowers_balance_and_supply() {
    let mut token = funded();
    assert_eq!(token.burn(owner(), account(10), 400), Ok(()));
    assert_eq!(token.balance_of(account(10)), 600);
    assert_eq!(token.total_supply(), 600);
    assert_eq!(token.burn(owner(), account(10), 601), Err(Error::InsufficientBalance));
    assert_eq!(token.burn(owner(), account(11), 1), Err(Error::InsufficientBalance));
    assert_eq!(token.burn(account(10), account(10), 1), Err(Error::NotMinter));
    assert_eq!(token.burn(owner(), account(10), 600), Ok(()));
    assert_eq!(token.total_supply(), 0);
}

#[test]
fn transfer_moves_tokens_and_keeps_the_supply() {
    let mut token = funded();
    assert_eq!(token.transfer(account(10), account(11), 300), Ok(()));
    assert_eq!(token.balance_of(account(10)), 700);
    assert_eq!(token.balance_of(account(11)), 300);
    assert_eq!(token.total_supply(), 1000);
    assert_eq!(
        token.transfer(account(10), account(11), 701),
        Err(Error::InsufficientBalance)
    );
    assert_eq!(
        token.transfer(account(12), account(11), 1),
        Err(Error::InsufficientBalance)
    );
    assert_eq!(token.transfer(account(12), account(11), 0), Ok(()));
    assert_eq!(token.balance_of(account(10)), 700);
    assert_eq!(token.balance_of(account(11)), 300);
}

#[test]
fn transfer_to_oneself_changes_nothing() {
    let mut token = funded();
    assert_eq!(token.transfer(account(10), account(10), 1000), Ok(()));
    assert_eq!(token.balance_of(account(10)), 1000);
    assert_eq!(
        token.transfer(account(10), account(10), 1001),
        Err(Error::InsufficientBalance)
    );
    assert_eq!(token.total_supply(), 1000);
}

#[test]
fn approve_sets_and_transfer_from_spends_the_allowance() {
    let (holder, spender, receiver) = (account(10), account(20), account(30));
    let mut token = funded();
    token.approve(holder, spender, 500);
    assert_eq!(token.allowance(holder, spender), 500);
    // The allowance is from holder to spender, not the other way round.
    assert_eq!(token.allowance(spender, holder), 0);
    assert_eq!(token.transfer_from(spender, holder, receiver, 200), Ok(()));
    assert_eq!(token.allowance(holder, spender), 300);
    assert_eq!(token.balance_of(holder), 800);
    assert_eq!(token.balance_of(receiver), 200);
    assert_eq!(token.balance_of(spender), 0);
    assert_eq!(
        token.transfer_from(spender, holder, receiver, 301),
        Err(Error::InsufficientAllowance)
    );
    assert_eq!(
        token.transfer_from(receiver, holder, receiver, 1),
        Err(Error::InsufficientAllowance)
    );
    assert_eq!(token.allowance(holder, spender), 300);
    // A new approval replaces the old one.
    token.approve(holder, spender, 7);
    assert_eq!(token.allowance(holder, spender), 7);
    assert_eq!(token.total_supply(), 1000);
}

#[test]
fn transfer_from_needs_the_balance_too_and_is_refused_whole() {
    let (holder, spender, receiver) = (account(10), account(20), account(30));
    let mut token = funded();
    token.approve(holder, spender, 5000);
    assert_eq!(
        token.transfer_from(spender, holder, receiver, 1001),
        Err(Error::InsufficientBalance)
    );
    // The allowance was not spent.
    assert_eq!(token.allowance(holder, spender), 5000);
    assert_eq!(token.balance_of(holder), 1000);
    assert_eq!(token.transfer_from(spender, holder, receiver, 1000), Ok(()));
    assert_eq!(token.allowance(holder, spender), 4000);
    assert_eq!(token.balance_of(receiver), 1000);
}

#[test]
fn bare_ledger_mints_burns_and_moves() {
    let (a, b) = (account(10), account(11));
    let mut ledger = TokenLedger::new();
    assert_eq!(ledger.total_supply(), 0);
    assert_eq!(ledger.mint(a, 10), Ok(()));
    assert_eq!(ledger.transfer(a, b, 4), Ok(()));
    assert_eq!(ledger.burn(b, 1), Ok(()));
    assert_eq!(ledger.balance_of(a), 6);
    assert_eq!(ledger.balance_of(b), 3);
    assert_eq!(ledger.total_supply(), 9);
    ledger.approve(a, b, 6);
    assert_eq!(ledger.transfer_from(b, a, b, 6), Ok(()));
    assert_eq!(ledger.allowance(a, b), 0);
    assert_eq!(ledger.balance_of(a), 0);
    assert_eq!(ledger.balance_of(b), 9);
    assert_eq!(ledger.burn(a, 1), Err(Error::InsufficientBalance));
}
