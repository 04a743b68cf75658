//! The price feed: a spot price and an exponentially smoothed price, reported
//! by an allow-listed set of feeders and refused to readers once it is stale.

use crate::accounts::{distinct_keys, put, value_of, AccountMap, Key};
use crate::error::Error;
use crate::math::lemma_product_fits;
use odra_core::prelude::Address;
use vstd::prelude::*;

verus! {

/// The largest deviation of a reported price from the smoothed price, in percent.
pub const MAX_DEVIATION: u64 = 5;

/// The age in seconds beyond which the feed is stale.
pub const MAX_STALENESS: u64 = 3600;

/// The price a new feed starts with: $0.05.
pub const INITIAL_PRICE: u64 = 50_000_000;

/// The feed is stale at `now`: more than `MAX_STALENESS` seconds have passed
/// since `last_update`.
pub open spec fn spec_stale(last_update: u64, now: u64) -> bool {
    now - last_update > MAX_STALENESS
}

/// `price` lies no further than `MAX_DEVIATION` percent of `twap` from `twap`.
pub open spec fn spec_within_deviation(twap: nat, price: nat) -> bool {
    if price > twap {
        (price - twap) * 100 <= MAX_DEVIATION * twap
    } else {
        (twap - price) * 100 <= MAX_DEVIATION * twap
    }
}

/// The smoothed price after `price` is reported: nine parts old, one part new.
pub open spec fn spec_smoothed(twap: nat, price: nat) -> nat {
    (twap * 9 + price) / 10
}

/// The smoothed price that a report of `price` leads to, or why the report
/// is refused: a zero price, or one further than `MAX_DEVIATION` percent
/// from the smoothed price. A smoothed price of zero rules nothing out.
pub open spec fn spec_report(twap: u64, price: u64) -> Result<u64, Error> {
    if price == 0 {
        Err(Error::ZeroPrice)
    } else if twap > 0 && !spec_within_deviation(twap as nat, price as nat) {
        Err(Error::DeviationTooHigh)
    } else {
        Ok(spec_smoothed(twap as nat, price as nat) as u64)
    }
}

/// Whether a feed last updated at `last_update` is stale at `now`.
pub fn stale(last_update: u64, now: u64) -> (r: bool)
    ensures
        r == spec_stale(last_update, now),
{
    if now <= last_update {
        false
    } else {
        now - last_update > MAX_STALENESS
    }
}

/// Checks a reported price against the smoothed price and gives the new
/// smoothed price, which lies between the old one and the reported price.
pub fn report(twap: u64, price: u64) -> (r: Result<u64, Error>)
    ensures
        r == spec_report(twap, price),
        r matches Ok(smoothed) ==> smoothed == spec_smoothed(twap as nat, price as nat) && (twap
            <= smoothed <= price || price <= smoothed <= twap),
{
    if price == 0 {
        return Err(Error::ZeroPrice);
    }
    if twap > 0 {
        let gap: u64 = if price > twap {
            price - twap
        } else {
            twap - price
        };
        proof {
            lemma_product_fits(MAX_DEVIATION, twap);
        }
        if (gap as u128) * 100 > (MAX_DEVIATION as u128) * (twap as u128) {
            return Err(Error::DeviationTooHigh);
        }
    }
    let smoothed: u128 = ((twap as u128) * 9 + (price as u128)) / 10;
    Ok(smoothed as u64)
}

/// What a price feed holds.
pub struct OracleView {
    pub owner: Address,
    pub current_price: u64,
    pub twap_price: u64,
    pub last_update: u64,
    pub feeders: Seq<(Address, bool)>,
}

impl OracleView {
    /// `who` may report prices.
    pub open spec fn is_feeder(self, who: Address) -> bool {
        value_of(self.feeders, who) == Some(true)
    }

    /// What a reader gets at `now`: the spot price, or nothing once the feed is stale.
    pub open spec fn quote(self, now: u64) -> Option<u64> {
        if spec_stale(self.last_update, now) {
            None
        } else {
            Some(self.current_price)
        }
    }
}

/// The price feed.
pub struct PriceOracle {
    owner: Address,
    current_price: u64,
    twap_price: u64,
    last_update: u64,
    feeders: AccountMap<Address, bool>,
}

impl View for PriceOracle {
    type V = OracleView;

    closed spec fn view(&self) -> OracleView {
        OracleView {
            owner: self.owner,
            current_price: self.current_price,
            twap_price: self.twap_price,
            last_update: self.last_update,
            feeders: self.feeders@,
        }
    }
}

impl PriceOracle {
    /// No feeder is listed twice.
    pub open spec fn wf(&self) -> bool {
        distinct_keys(self@.feeders)
    }

    /// A new feed, owned by `caller`, who is its first feeder, with both
    /// prices at `INITIAL_PRICE` and updated at `now`.
    pub fn init(caller: Address, now: u64) -> (oracle: Self)
        ensures
            oracle.wf(),
            oracle@ == (OracleView {
                owner: caller,
                current_price: INITIAL_PRICE,
                twap_price: INITIAL_PRICE,
                last_update: now,
                feeders: seq![(caller, true)],
            }),
    {
        let mut feeders: AccountMap<Address, bool> = AccountMap::new();
        feeders.set(caller, true);
        assert(feeders@ =~= seq![(caller, true)]);
        PriceOracle {
            owner: caller,
            current_price: INITIAL_PRICE,
            twap_price: INITIAL_PRICE,
            last_update: now,
            feeders,
        }
    }

    /// Lets `feeder` report prices. Only the owner may do this.
    pub fn add_feeder(&mut self, caller: Address, feeder: Address) -> (r: Result<(), Error>)
        requires
            old(self).wf(),
        ensures
            final(self).wf(),
            r is Ok <==> caller == old(self)@.owner,
            r is Err ==> r == Err::<(), Error>(Error::NotOwner) && *final(self) == *old(self),
            r is Ok ==> final(self)@ == (OracleView {
                feeders: put(old(self)@.feeders, feeder, true),
                ..old(self)@
            }),
    {
        if !caller.same(&self.owner) {
            return Err(Error::NotOwner);
        }
        self.feeders.set(feeder, true);
        Ok(())
    }

    /// Stops `feeder` from reporting prices. Only the owner may do this.
    pub fn remove_feeder(&mut self, caller: Address, feeder: Address) -> (r: Result<(), Error>)
        requires
            old(self).wf(),
        ensures
            final(self).wf(),
            r is Ok <==> caller == old(self)@.owner,
            r is Err ==> r == Err::<(), Error>(Error::NotOwner) && *final(self) == *old(self),
            r is Ok ==> final(self)@ == (OracleView {
                feeders: put(old(self)@.feeders, feeder, false),
                ..old(self)@
            }),
    {
        if !caller.same(&self.owner) {
            return Err(Error::NotOwner);
        }
        self.feeders.set(feeder, false);
        Ok(())
    }

    /// What `update_price` does to a feed `pre` when `caller` reports `price`
    /// at `now`.
    pub open spec fn spec_update_price(
        pre: OracleView,
        caller: Address,
        now: u64,
        price: u64,
    ) -> Result<OracleView, Error> {
        if !pre.is_feeder(caller) {
            Err(Error::NotFeeder)
        } else {
            match spec_report(pre.twap_price, price) {
                Err(e) => Err(e),
                Ok(twap) => Ok(
                    OracleView { current_price: price, twap_price: twap, last_update: now, ..pre },
                ),
            }
        }
    }

    /// Reports a new spot price. Only a feeder may do this; the price must be
    /// positive and within `MAX_DEVIATION` percent of the smoothed price.
    pub fn update_price(&mut self, caller: Address, now: u64, new_price: u64) -> (r: Result<
        (),
        Error,
    >)
        requires
            old(self).wf(),
        ensures
            final(self).wf(),
            match Self::spec_update_price(old(self)@, caller, now, new_price) {
                Ok(post) => r == Ok::<(), Error>(()) && final(self)@ == post,
                Err(e) => r == Err::<(), Error>(e) && *final(self) == *old(self),
            },
    {
        match self.feeders.get(&caller) {
            Some(true) => {},
            _ => {
                return Err(Error::NotFeeder);
            },
        }
        match report(self.twap_price, new_price) {
            Err(e) => Err(e),
            Ok(twap) => {
                self.twap_price = twap;
                self.current_price = new_price;
                self.last_update = now;
                Ok(())
            },
        }
    }

    /// The spot price; refused once the feed is stale.
    pub fn get_price(&self, now: u64) -> (r: Result<u64, Error>)
        ensures
            r == if spec_stale(self@.last_update, now) {
                Err::<u64, Error>(Error::StalePrice)
            } else {
                Ok(self@.current_price)
            },
    {
        if stale(self.last_update, now) {
            Err(Error::StalePrice)
        } else {
            Ok(self.current_price)
        }
    }

    /// What a reader gets at `now`: the spot price, or nothing once the feed
    /// is stale.
    pub fn quote(&self, now: u64) -> (r: Option<u64>)
        ensures
            r == self@.quote(now),
    {
        if stale(self.last_update, now) {
            None
        } else {
            Some(self.current_price)
        }
    }

    /// The smoothed price; refused once the feed is stale.
    pub fn get_twap_price(&self, now: u64) -> (r: Result<u64, Error>)
        ensures
            r == if spec_stale(self@.last_update, now) {
                Err::<u64, Error>(Error::StalePrice)
            } else {
                Ok(self@.twap_price)
            },
    {
        if stale(self.last_update, now) {
            Err(Error::StalePrice)
        } else {
            Ok(self.twap_price)
        }
    }

    /// Whether the feed is stale at `now`.
    pub fn is_stale(&self, now: u64) -> (r: bool)
        ensures
            r == spec_stale(self@.last_update, now),
    {
        stale(self.last_update, now)
    }

    /// When the price was last reported.
    pub fn get_last_update(&self) -> (r: u64)
        ensures
            r == self@.last_update,
    {
        self.last_update
    }

    /// Whether `who` may report prices.
    pub fn is_feeder(&self, who: Address) -> (r: bool)
        requires
            self.wf(),
        ensures
            r == self@.is_feeder(who),
    {
        match self.feeders.get(&who) {
            Some(true) => true,
            _ => false,
        }
    }
}

} // verus!
