//! The deployment plan: which contracts are put on the network, in what
//! order and with how much gas. Carrying out a step is the host's work; the
//! plan says which step comes next.

use vstd::prelude::*;

verus! {

/// The gas paid for each deployment.
pub const DEPLOY_GAS: u64 = 100_000_000_000;

/// A contract that the plan deploys.
#[derive(Clone, Copy, Debug, PartialEq, Eq, Structural)]
pub enum Contract {
    StCSPR,
    CasperUSD,
    PriceOracle,
}

/// One step of the plan: a contract, deployed without arguments unless the
/// network already has it, and the gas for it.
#[derive(Clone, Copy, Debug, PartialEq, Eq, Structural)]
pub struct Deployment {
    pub contract: Contract,
    pub gas: u64,
}

/// The plan: the collateral token, then the stablecoin, then the price feed.
pub struct CasperUSDDeployScript;

impl CasperUSDDeployScript {
    /// The steps, in order.
    pub open spec fn spec_plan() -> Seq<Deployment> {
        seq![
            Deployment { contract: Contract::StCSPR, gas: DEPLOY_GAS },
            Deployment { contract: Contract::CasperUSD, gas: DEPLOY_GAS },
            Deployment { contract: Contract::PriceOracle, gas: DEPLOY_GAS },
        ]
    }

    /// The step that follows `done` successful steps; `None` once the plan is
    /// through. A failed step ends the deployment: nothing follows it.
    pub fn next(&self, done: usize) -> (step: Option<Deployment>)
        ensures
            step == if done < Self::spec_plan().len() {
                Some(Self::spec_plan()[done as int])
            } else {
                None
            },
    {
        if done == 0 {
            Some(Deployment { contract: Contract::StCSPR, gas: DEPLOY_GAS })
        } else if done == 1 {
            Some(Deployment { contract: Contract::CasperUSD, gas: DEPLOY_GAS })
        } else if done == 2 {
            Some(Deployment { contract: Contract::PriceOracle, gas: DEPLOY_GAS })
        } else {
            None
        }
    }

    /// The whole plan.
    pub fn deploy(&self) -> (plan: Vec<Deployment>)
        ensures
            plan@ == Self::spec_plan(),
    {
        let mut plan: Vec<Deployment> = Vec::new();
        let mut done: usize = 0;
        loop
            invariant_except_break
                done <= 3,
                plan@ == Self::spec_plan().subrange(0, done as int),
            ensures
                plan@ == Self::spec_plan(),
            decreases 3 - done,
        {
            match self.next(done) {
                None => {
                    assert(Self::spec_plan().subrange(0, 3) =~= Self::spec_plan());
                    break ;
                },
                Some(step) => {
                    plan.push(step);
                    assert(plan@ =~= Self::spec_plan().subrange(0, done + 1));
                    done += 1;
                },
            }
        }
        plan
    }
}

} // verus!
