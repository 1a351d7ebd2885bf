//! The swap intent and its route selector: given candidate routes and the
//! snapshot's simulation results, pick the best viable route.
use vstd::prelude::*;

use crate::state::SimulationResponse;
use crate::state::StateSnapshot;
use crate::state::Coin;
use crate::state::Env;
use crate::state::spec_find_simulation;
use crate::types::ContractError;
use crate::types::QueryFailure;

verus! {

/// How the swap amount is adjusted before execution.
#[derive(Clone, Copy, Debug, PartialEq, Eq, Structural)]
pub enum SwapAmountAdjustment {
    Fixed,
}

/// A route through one order-book pair contract.
#[derive(Debug)]
pub struct FinRoute {
    pub pair_address: String,
}

impl Clone for FinRoute {
    fn clone(&self) -> (res: Self)
        ensures
            res == *self,
    {
        FinRoute { pair_address: self.pair_address.clone() }
    }
}

/// A candidate execution route for a swap.
#[derive(Debug)]
pub enum SwapRoute {
    Fin(FinRoute),
}

impl Clone for SwapRoute {
    fn clone(&self) -> (res: Self)
        ensures
            res == *self,
    {
        match self {
            SwapRoute::Fin(f) => SwapRoute::Fin(f.clone()),
        }
    }
}

/// A swap intent: what to sell, the least to accept, candidate routes, a
/// slippage tolerance in basis points, and an amount-adjustment policy.
#[derive(Debug)]
pub struct Swap {
    pub swap_amount: Coin,
    pub minimum_receive_amount: Coin,
    pub routes: Vec<SwapRoute>,
    pub maximum_slippage_bps: u64,
    pub adjustment: SwapAmountAdjustment,
}

/// The pair contract a route trades on.
pub open spec fn spec_route_pair(r: SwapRoute) -> Seq<char> {
    match r {
        SwapRoute::Fin(f) => f.pair_address@,
    }
}

/// The simulation result the snapshot records for a route, if any.
pub open spec fn spec_route_sim(deps: StateSnapshot, r: SwapRoute) -> Option<SimulationResponse> {
    spec_find_simulation(deps.simulations@, spec_route_pair(r))
}

/// The amount a simulated swap returns net of its fee, floored at zero.
pub open spec fn spec_net_return(resp: SimulationResponse) -> u128 {
    if resp.fee <= resp.returned {
        (resp.returned - resp.fee) as u128
    } else {
        0
    }
}

/// Whether a route is viable: its simulation is recorded and returns, net of
/// fee, at least the minimum receive amount (inclusive).
pub open spec fn spec_route_viable(deps: StateSnapshot, r: SwapRoute, min: u128) -> bool {
    spec_route_sim(deps, r) matches Some(resp) && spec_net_return(resp) >= min
}

/// The index of the first route whose simulation the snapshot does not
/// record, if any.
pub open spec fn spec_first_missing_sim(routes: Seq<SwapRoute>, deps: StateSnapshot) -> Option<int>
    decreases routes,
{
    if routes.len() == 0 {
        None
    } else if spec_route_sim(deps, routes[0]) is None {
        Some(0)
    } else {
        match spec_first_missing_sim(routes.drop_first(), deps) {
            None => None,
            Some(j) => Some(j + 1),
        }
    }
}

/// The best viable route among the first `k` candidates: the one with the
/// greatest net return, earliest listed winning ties.
pub open spec fn spec_best_prefix(
    routes: Seq<SwapRoute>,
    deps: StateSnapshot,
    min: u128,
    k: int,
) -> Option<int>
    decreases k,
{
    if k <= 0 {
        None
    } else {
        let prev = spec_best_prefix(routes, deps, min, k - 1);
        let cur = k - 1;
        if spec_route_viable(deps, routes[cur], min) {
            match prev {
                None => Some(cur),
                Some(j) => {
                    if spec_net_return(spec_route_sim(deps, routes[cur])->0) > spec_net_return(
                        spec_route_sim(deps, routes[j])->0,
                    ) {
                        Some(cur)
                    } else {
                        Some(j)
                    }
                },
            }
        } else {
            prev
        }
    }
}

/// The best viable route among all candidates.
pub open spec fn spec_best_route(swap: Swap, deps: StateSnapshot) -> Option<int> {
    spec_best_prefix(swap.routes@, deps, swap.minimum_receive_amount.amount, swap.routes@.len() as int)
}

/// If every simulation before `i` is recorded and the one at `i` is not,
/// then `i` is the first missing one.
proof fn lemma_first_missing_at(routes: Seq<SwapRoute>, deps: StateSnapshot, i: int)
    requires
        0 <= i < routes.len(),
        forall|j: int| 0 <= j < i ==> spec_route_sim(deps, #[trigger] routes[j]) is Some,
        spec_route_sim(deps, routes[i]) is None,
    ensures
        spec_first_missing_sim(routes, deps) == Some(i),
    decreases i,
{
    if i > 0 {
        lemma_first_missing_at(routes.drop_first(), deps, i - 1);
    }
}

/// When every simulation is recorded, none is missing.
proof fn lemma_no_missing_sim(routes: Seq<SwapRoute>, deps: StateSnapshot)
    requires
        forall|j: int| 0 <= j < routes.len() ==> spec_route_sim(deps, #[trigger] routes[j]) is Some,
    ensures
        spec_first_missing_sim(routes, deps) is None,
    decreases routes,
{
    if routes.len() > 0 {
        lemma_no_missing_sim(routes.drop_first(), deps);
    }
}

/// A best route exists among the first `k` candidates exactly when some
/// viable one does, it is itself viable, and none of the first `k` beats it.
pub proof fn lemma_best_prefix_char(routes: Seq<SwapRoute>, deps: StateSnapshot, min: u128, k: int)
    requires
        0 <= k <= routes.len(),
    ensures
        (spec_best_prefix(routes, deps, min, k) is Some) <==> (exists|j: int|
            0 <= j < k && spec_route_viable(deps, #[trigger] routes[j], min)),
        spec_best_prefix(routes, deps, min, k) matches Some(b) ==> 0 <= b < k
            && spec_route_viable(deps, routes[b], min),
    decreases k,
{
    if k > 0 {
        lemma_best_prefix_char(routes, deps, min, k - 1);
        if spec_route_viable(deps, routes[k - 1], min) {
            assert(exists|j: int|
                0 <= j < k && spec_route_viable(deps, #[trigger] routes[j], min)) by {
                assert(spec_route_viable(deps, routes[k - 1], min));
            }
        }
    }
}

impl Swap {
    /// Evaluate every candidate route against the snapshot's simulations and
    /// pick the best viable one: greatest return net of fee, earliest listed
    /// winning ties, viable meaning the net return reaches the minimum
    /// receive amount. A route whose simulation the snapshot cannot answer
    /// fails the whole selection with a state-query error for the first such
    /// route.
    pub fn best_route(&self, deps: &StateSnapshot, _env: &Env) -> (r: Result<
        Option<SwapRoute>,
        ContractError,
    >)
        ensures
            r is Ok <==> spec_first_missing_sim(self.routes@, *deps) is None,
            r matches Ok(opt) ==> match spec_best_route(*self, *deps) {
                Some(b) => opt matches Some(rt) && rt == self.routes@[b],
                None => opt is None,
            },
            r matches Err(e) ==> spec_first_missing_sim(self.routes@, *deps) matches Some(m)
                && e matches ContractError::StateQueryFailure(QueryFailure::Simulation {
                pair_address,
            }) && pair_address@ == spec_route_pair(self.routes@[m]),
    {
        let min = self.minimum_receive_amount.amount;
        let n = self.routes.len();
        let mut best: Option<usize> = None;
        let mut best_net: u128 = 0;
        for i in 0..n
            invariant
                n == self.routes.len(),
                forall|j: int|
                    0 <= j < i ==> spec_route_sim(*deps, #[trigger] self.routes@[j]) is Some,
                best is Some <==> spec_best_prefix(self.routes@, *deps, min, i as int) is Some,
                best matches Some(b) ==> spec_best_prefix(self.routes@, *deps, min, i as int)
                    == Some(b as int),
                min == self.minimum_receive_amount.amount,
                best matches Some(b) ==> b < i && best_net == spec_net_return(
                    spec_route_sim(*deps, self.routes@[b as int])->0,
                ),
            decreases n - i,
        {
            let pair = match &self.routes[i] {
                SwapRoute::Fin(f) => &f.pair_address,
            };
            let sim = match deps.query_simulation(pair) {
                Some(s) => s,
                None => {
                    proof {
                        lemma_first_missing_at(self.routes@, *deps, i as int);
                    }
                    return Err(
                        ContractError::StateQueryFailure(
                            QueryFailure::Simulation { pair_address: pair.clone() },
                        ),
                    );
                },
            };
            let net: u128 = if sim.fee <= sim.returned {
                sim.returned - sim.fee
            } else {
                0
            };
            if net >= min {
                match best {
                    None => {
                        best = Some(i);
                        best_net = net;
                    },
                    Some(_) => {
                        if net > best_net {
                            best = Some(i);
                            best_net = net;
                        }
                    },
                }
            }
        }
        proof {
            lemma_no_missing_sim(self.routes@, *deps);
        }
        match best {
            None => Ok(None),
            Some(b) => Ok(Some(self.routes[b].clone())),
        }
    }
}

} // verus!
