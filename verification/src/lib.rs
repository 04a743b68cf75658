//! Accounting core of a collateralised-debt stablecoin protocol.
//!
//! Users lock a yield-bearing collateral token in troves and take on debt in
//! a stablecoin, at an interest rate of their own choosing. A trove whose
//! collateral no longer covers its debt is liquidated into the stability
//! pool, whose depositors absorb the debt and share the collateral.
//!
//! - `math`: fixed-point arithmetic, exact and with out-of-range results reported.
//! - `accounts`: account identities and the per-account record store.
//! - `oracle`: the price feed.
//! - `trove`, `trove_manager`: one trove with the totals it counts in, and the
//!   ledger of all troves.
//! - `deposit`, `stability_pool`: one deposit with the pool figures it shares
//!   in, and the pool of all deposits.
//! - `token`, `stablecoin`, `stcspr`: the token ledger and the two tokens.
//! - `deploy`: the deployment plan.
//! - `error`: the faults.
//!
//! Every operation either goes through or is refused with a fault and leaves
//! the state as it was. Callers hand in who is calling and what time it is;
//! nothing here reads a clock or an environment.

pub mod accounts;
pub mod deploy;
pub mod deposit;
pub mod error;
pub mod math;
pub mod oracle;
pub mod stability_pool;
pub mod stablecoin;
pub mod stcspr;
pub mod token;
pub mod trove;
pub mod trove_manager;
