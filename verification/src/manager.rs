//! The strategy manager's registry surface: strategy handles, their
//! lifecycle status machine, and the manager's message types.
use vstd::prelude::*;

use crate::types::ContractError;
use crate::types::StrategyConfig;

verus! {

/// Lifecycle status of a registered strategy. `Active` and `Paused` are
/// interchangeable; `Archived` is terminal.
#[derive(Clone, Copy, Debug, PartialEq, Eq, Structural)]
pub enum StrategyStatus {
    Active,
    Paused,
    Archived,
}

/// Whether the lifecycle machine permits moving from one status to another.
/// Permitted moves are exactly `Active` to `Paused`, `Paused` to `Active`,
/// and either of those to `Archived`; `Archived` has no outgoing move, and a
/// status never transitions to itself.
pub open spec fn spec_status_transition_allowed(from: StrategyStatus, to: StrategyStatus) -> bool {
    match (from, to) {
        (StrategyStatus::Active, StrategyStatus::Paused) => true,
        (StrategyStatus::Active, StrategyStatus::Archived) => true,
        (StrategyStatus::Paused, StrategyStatus::Active) => true,
        (StrategyStatus::Paused, StrategyStatus::Archived) => true,
        _ => false,
    }
}

/// The single byte a status is keyed under in the registry's storage
/// indexes.
pub open spec fn spec_status_key_byte(s: StrategyStatus) -> u8 {
    match s {
        StrategyStatus::Active => 0,
        StrategyStatus::Paused => 1,
        StrategyStatus::Archived => 2,
    }
}

impl StrategyStatus {
    /// The single byte this status is keyed under in the registry's storage
    /// indexes.
    pub fn key_byte(&self) -> (r: u8)
        ensures
            r == spec_status_key_byte(*self),
    {
        match *self {
            StrategyStatus::Active => 0,
            StrategyStatus::Paused => 1,
            StrategyStatus::Archived => 2,
        }
    }

    /// Whether the lifecycle machine permits moving from `self` to `to`.
    pub fn can_transition_to(&self, to: StrategyStatus) -> (r: bool)
        ensures
            r == spec_status_transition_allowed(*self, to),
    {
        match (*self, to) {
            (StrategyStatus::Active, StrategyStatus::Paused) => true,
            (StrategyStatus::Active, StrategyStatus::Archived) => true,
            (StrategyStatus::Paused, StrategyStatus::Active) => true,
            (StrategyStatus::Paused, StrategyStatus::Archived) => true,
            _ => false,
        }
    }
}

/// `Archived` is absorbing: no transition out of it is ever permitted.
pub proof fn lemma_archived_is_terminal(to: StrategyStatus)
    ensures
        !spec_status_transition_allowed(StrategyStatus::Archived, to),
{
}

/// `Active` and `Paused` are mutually reachable, and each may be archived.
pub proof fn lemma_active_paused_reversible()
    ensures
        spec_status_transition_allowed(StrategyStatus::Active, StrategyStatus::Paused),
        spec_status_transition_allowed(StrategyStatus::Paused, StrategyStatus::Active),
        spec_status_transition_allowed(StrategyStatus::Active, StrategyStatus::Archived),
        spec_status_transition_allowed(StrategyStatus::Paused, StrategyStatus::Archived),
{
}

/// An affiliate registered on a strategy: a label, a payout address, and a
/// fee share in basis points.
#[derive(Debug)]
pub struct Affiliate {
    pub label: String,
    pub address: String,
    pub bps: u64,
}

impl Clone for Affiliate {
    fn clone(&self) -> (res: Self)
        ensures
            res == *self,
    {
        Affiliate { label: self.label.clone(), address: self.address.clone(), bps: self.bps }
    }
}

/// The manager's record of one registered strategy.
#[derive(Debug)]
pub struct StrategyHandle {
    pub id: u64,
    pub owner: String,
    pub contract_address: String,
    pub created_at: u64,
    pub updated_at: u64,
    pub label: String,
    pub status: StrategyStatus,
    pub affiliates: Vec<Affiliate>,
}

impl StrategyHandle {
    /// Apply a lifecycle transition request. On a permitted move the status
    /// and update time change and every other field is kept; a request
    /// outside the permitted set is rejected and the handle is untouched.
    pub fn update_status(&mut self, to: StrategyStatus, now: u64) -> (r: Result<(), ContractError>)
        ensures
            r is Ok <==> spec_status_transition_allowed(old(self).status, to),
            r is Ok ==> *final(self) == (StrategyHandle { status: to, updated_at: now, ..*old(self) }),
            r is Err ==> *final(self) == *old(self),
            r is Err ==> r == Err::<(), ContractError>(
                (ContractError::InvalidStatusTransition { from: old(self).status, to }),
            ),
    {
        if self.status.can_transition_to(to) {
            self.status = to;
            self.updated_at = now;
            Ok(())
        } else {
            Err(ContractError::InvalidStatusTransition { from: self.status, to })
        }
    }
}

/// The manager contract's own configuration.
#[derive(Debug)]
pub struct ManagerConfig {
    pub fee_collector: String,
    pub strategy_code_id: u64,
}

/// Mutating calls the manager accepts.
#[derive(Debug)]
pub enum ManagerExecuteMsg {
    InstantiateStrategy { label: String, affiliates: Vec<Affiliate>, strategy: StrategyConfig },
    ExecuteStrategy { contract_address: String },
    UpdateStrategyStatus { contract_address: String, status: StrategyStatus },
    UpdateStrategy { contract_address: String, update: StrategyConfig },
}

/// Read-only queries the manager answers.
#[derive(Debug)]
pub enum ManagerQueryMsg {
    Config {},
    Strategy { address: String },
    Strategies {
        owner: Option<String>,
        status: Option<StrategyStatus>,
        start_after: Option<u64>,
        limit: Option<u16>,
    },
}

} // verus!
