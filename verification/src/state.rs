//! Models of the host chain's primitive values and of the frozen state
//! snapshot that condition evaluation reads.
//!
//! All external queries the evaluator may issue (balances, order status,
//! strategy handles, oracle prices, swap simulations) are answered from a
//! `StateSnapshot`: a point-in-time, read-only table of query results. The
//! host adapter fills it before evaluation; the engine never mutates it.
use vstd::prelude::*;

use crate::manager::StrategyHandle;
use crate::manager::StrategyStatus;

verus! {

/// An amount of a native token: a denomination and an integer amount of its
/// smallest unit.
#[derive(Debug)]
pub struct Coin {
    pub denom: String,
    pub amount: u128,
}

impl Clone for Coin {
    fn clone(&self) -> (res: Self)
        ensures
            res == *self,
    {
        Coin { denom: self.denom.clone(), amount: self.amount }
    }
}

/// The ambient evaluation context: current block time (nanoseconds), current
/// block height, and the address of the contract doing the evaluating.
#[derive(Debug)]
pub struct Env {
    pub time: u64,
    pub height: u64,
    pub contract_address: String,
}

/// The side of an order book that a limit order rests on.
#[derive(Clone, Copy, Debug, PartialEq, Eq, Structural)]
pub enum Side {
    Base,
    Quote,
}

/// The state of one resting limit order, as the order-book contract reports
/// it. Fixed-point decimal fields carry their atomic representation.
#[derive(Debug)]
pub struct OrderResponse {
    pub owner: String,
    pub side: Side,
    pub price: u128,
    pub rate: u128,
    pub updated_at: u64,
    pub offer: u128,
    pub remaining: u128,
    pub filled: u128,
}

/// The outcome of simulating a swap against one route: the gross amount
/// returned and the fee charged.
#[derive(Clone, Copy, Debug, PartialEq, Eq, Structural)]
pub struct SimulationResponse {
    pub returned: u128,
    pub fee: u128,
}

/// One bank balance: `address` holds `amount` of `denom`.
#[derive(Debug)]
pub struct BalanceEntry {
    pub address: String,
    pub denom: String,
    pub amount: u128,
}

/// One order-book lookup result, keyed by pair contract, owner, side and
/// quoted price.
#[derive(Debug)]
pub struct OrderEntry {
    pub pair_address: String,
    pub owner: String,
    pub side: Side,
    pub price: u128,
    pub order: OrderResponse,
}

/// One strategy-registry lookup result, keyed by manager contract and
/// strategy contract address.
#[derive(Debug)]
pub struct StrategyEntry {
    pub manager_contract: String,
    pub contract_address: String,
    pub handle: StrategyHandle,
}

/// One oracle price, keyed by the resolved layer-1 asset identifier.
#[derive(Debug)]
pub struct PriceEntry {
    pub asset: String,
    pub price: u128,
}

/// One swap-simulation result, keyed by the pair contract the route trades
/// on.
#[derive(Debug)]
pub struct SimulationEntry {
    pub pair_address: String,
    pub response: SimulationResponse,
}

/// A frozen snapshot of every query result the evaluator may need. Lookups
/// take the first matching entry; a missing entry is a failed state query,
/// except for balances, where the bank reports zero for an absent pair.
#[derive(Debug)]
pub struct StateSnapshot {
    pub balances: Vec<BalanceEntry>,
    pub orders: Vec<OrderEntry>,
    pub strategies: Vec<StrategyEntry>,
    pub prices: Vec<PriceEntry>,
    pub simulations: Vec<SimulationEntry>,
}

/// The balance the snapshot reports for an address and denomination: the
/// first matching entry, or zero when none is listed.
pub open spec fn spec_balance_of(s: Seq<BalanceEntry>, address: Seq<char>, denom: Seq<char>) -> u128
    decreases s,
{
    if s.len() == 0 {
        0
    } else if s[0].address@ == address && s[0].denom@ == denom {
        s[0].amount
    } else {
        spec_balance_of(s.drop_first(), address, denom)
    }
}

/// The first order entry matching the full order key, if any.
pub open spec fn spec_find_order(
    s: Seq<OrderEntry>,
    pair_address: Seq<char>,
    owner: Seq<char>,
    side: Side,
    price: u128,
) -> Option<OrderResponse>
    decreases s,
{
    if s.len() == 0 {
        None
    } else if s[0].pair_address@ == pair_address && s[0].owner@ == owner && s[0].side == side
        && s[0].price == price {
        Some(s[0].order)
    } else {
        spec_find_order(s.drop_first(), pair_address, owner, side, price)
    }
}

/// The first registered strategy handle under a manager for a contract
/// address, if any.
pub open spec fn spec_find_strategy(
    s: Seq<StrategyEntry>,
    manager_contract: Seq<char>,
    contract_address: Seq<char>,
) -> Option<StrategyHandle>
    decreases s,
{
    if s.len() == 0 {
        None
    } else if s[0].manager_contract@ == manager_contract && s[0].contract_address@
        == contract_address {
        Some(s[0].handle)
    } else {
        spec_find_strategy(s.drop_first(), manager_contract, contract_address)
    }
}

/// The first oracle price recorded for a resolved asset, if any.
pub open spec fn spec_find_price(s: Seq<PriceEntry>, asset: Seq<char>) -> Option<u128>
    decreases s,
{
    if s.len() == 0 {
        None
    } else if s[0].asset@ == asset {
        Some(s[0].price)
    } else {
        spec_find_price(s.drop_first(), asset)
    }
}

/// The first simulation result recorded for a pair contract, if any.
pub open spec fn spec_find_simulation(s: Seq<SimulationEntry>, pair_address: Seq<char>) -> Option<
    SimulationResponse,
>
    decreases s,
{
    if s.len() == 0 {
        None
    } else if s[0].pair_address@ == pair_address {
        Some(s[0].response)
    } else {
        spec_find_simulation(s.drop_first(), pair_address)
    }
}

impl StateSnapshot {
    /// The balance of `denom` held by `address`, zero when the snapshot
    /// lists none.
    pub fn query_balance(&self, address: &String, denom: &String) -> (r: u128)
        ensures
            r == spec_balance_of(self.balances@, address@, denom@),
    {
        let n = self.balances.len();
        proof {
            assert(self.balances@.skip(0) =~= self.balances@);
        }
        for i in 0..n
            invariant
                n == self.balances.len(),
                spec_balance_of(self.balances@, address@, denom@) == spec_balance_of(
                    self.balances@.skip(i as int),
                    address@,
                    denom@,
                ),
            decreases n - i,
        {
            let e = &self.balances[i];
            if e.address == *address && e.denom == *denom {
                return e.amount;
            }
            proof {
                assert(self.balances@.skip(i as int).drop_first() =~= self.balances@.skip(
                    i as int + 1,
                ));
            }
        }
        0
    }

    /// The resting order under the given key, when the snapshot lists one.
    pub fn query_order(
        &self,
        pair_address: &String,
        owner: &String,
        side: Side,
        price: u128,
    ) -> (r: Option<&OrderResponse>)
        ensures
            r matches Some(o) ==> spec_find_order(
                self.orders@,
                pair_address@,
                owner@,
                side,
                price,
            ) == Some(*o),
            r is None ==> spec_find_order(self.orders@, pair_address@, owner@, side, price)
                is None,
    {
        let n = self.orders.len();
        proof {
            assert(self.orders@.skip(0) =~= self.orders@);
        }
        for i in 0..n
            invariant
                n == self.orders.len(),
                spec_find_order(self.orders@, pair_address@, owner@, side, price)
                    == spec_find_order(
                    self.orders@.skip(i as int),
                    pair_address@,
                    owner@,
                    side,
                    price,
                ),
            decreases n - i,
        {
            let e = &self.orders[i];
            if e.pair_address == *pair_address && e.owner == *owner && e.side == side && e.price
                == price {
                return Some(&e.order);
            }
            proof {
                assert(self.orders@.skip(i as int).drop_first() =~= self.orders@.skip(
                    i as int + 1,
                ));
            }
        }
        None
    }

    /// The strategy handle registered under a manager for a contract
    /// address, when the snapshot lists one.
    pub fn query_strategy(&self, manager_contract: &String, contract_address: &String) -> (r:
        Option<&StrategyHandle>)
        ensures
            r matches Some(h) ==> spec_find_strategy(
                self.strategies@,
                manager_contract@,
                contract_address@,
            ) == Some(*h),
            r is None ==> spec_find_strategy(
                self.strategies@,
                manager_contract@,
                contract_address@,
            ) is None,
    {
        let n = self.strategies.len();
        proof {
            assert(self.strategies@.skip(0) =~= self.strategies@);
        }
        for i in 0..n
            invariant
                n == self.strategies.len(),
                spec_find_strategy(self.strategies@, manager_contract@, contract_address@)
                    == spec_find_strategy(
                    self.strategies@.skip(i as int),
                    manager_contract@,
                    contract_address@,
                ),
            decreases n - i,
        {
            let e = &self.strategies[i];
            if e.manager_contract == *manager_contract && e.contract_address == *contract_address {
                return Some(&e.handle);
            }
            proof {
                assert(self.strategies@.skip(i as int).drop_first() =~= self.strategies@.skip(
                    i as int + 1,
                ));
            }
        }
        None
    }

    /// The oracle price recorded for a resolved asset, when the snapshot
    /// lists one.
    pub fn query_price(&self, asset: &String) -> (r: Option<u128>)
        ensures
            r == spec_find_price(self.prices@, asset@),
    {
        let n = self.prices.len();
        proof {
            assert(self.prices@.skip(0) =~= self.prices@);
        }
        for i in 0..n
            invariant
                n == self.prices.len(),
                spec_find_price(self.prices@, asset@) == spec_find_price(
                    self.prices@.skip(i as int),
                    asset@,
                ),
            decreases n - i,
        {
            let e = &self.prices[i];
            if e.asset == *asset {
                return Some(e.price);
            }
            proof {
                assert(self.prices@.skip(i as int).drop_first() =~= self.prices@.skip(
                    i as int + 1,
                ));
            }
        }
        None
    }

    /// The swap-simulation result recorded for a pair contract, when the
    /// snapshot lists one.
    pub fn query_simulation(&self, pair_address: &String) -> (r: Option<SimulationResponse>)
        ensures
            r == spec_find_simulation(self.simulations@, pair_address@),
    {
        let n = self.simulations.len();
        proof {
            assert(self.simulations@.skip(0) =~= self.simulations@);
        }
        for i in 0..n
            invariant
                n == self.simulations.len(),
                spec_find_simulation(self.simulations@, pair_address@) == spec_find_simulation(
                    self.simulations@.skip(i as int),
                    pair_address@,
                ),
            decreases n - i,
        {
            let e = &self.simulations[i];
            if e.pair_address == *pair_address {
                return Some(e.response);
            }
            proof {
                assert(self.simulations@.skip(i as int).drop_first() =~= self.simulations@.skip(
                    i as int + 1,
                ));
            }
        }
        None
    }
}

} // verus!
