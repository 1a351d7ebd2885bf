//! Inbound instantiation requests, before they are stored as configuration.
use vstd::prelude::*;

use crate::state::Coin;
use crate::types::DcaSchedule;
use crate::types::Destination;

verus! {

/// A request to instantiate a strategy, by kind.
#[derive(Debug)]
pub enum InstantiateStrategyConfig {
    Dca {
        owner: String,
        swap_amount: Coin,
        minimum_receive_amount: Coin,
        schedule: DcaSchedule,
        exchange_contract: String,
        scheduler_contract: String,
        execution_rebate: Coin,
        affiliate_code: Option<String>,
        mutable_destinations: Vec<Destination>,
        immutable_destinations: Vec<Destination>,
    },
    Custom {},
}

} // verus!
