//! Core contract types: the error taxonomy, the narrow trigger condition
//! subset and its executable state machine, strategy records and their
//! lifecycle status, and the domain-event taxonomy.
use vstd::prelude::*;

use crate::manager::StrategyStatus;
use crate::state::Coin;
use crate::state::Env;
use crate::state::Side;
use crate::msg::InstantiateStrategyConfig;

verus! {

/// Which state query could not be answered, with the key that was asked.
#[derive(Debug)]
pub enum QueryFailure {
    Order { pair_address: String, owner: String, side: Side, price: u128 },
    Strategy { manager_contract: String, contract_address: String },
    OraclePrice { asset: String },
    Simulation { pair_address: String },
}

/// The error taxonomy of the engine. State-read failures are always
/// propagated, never folded into a `false` evaluation result.
#[derive(Debug)]
pub enum ContractError {
    /// An underlying state read failed: the snapshot cannot answer the query.
    StateQueryFailure(QueryFailure),
    /// An oracle asset identifier could not be resolved from the given denom.
    UnresolvableAsset { denom: String, cause: String },
    /// A trigger was executed while its condition is unmet; the offending
    /// condition is carried for diagnosis.
    ConditionNotMet(Condition),
    /// A recognized but unsupported execution path was requested.
    NotImplemented,
    /// A lifecycle change outside the permitted transition set.
    InvalidStatusTransition { from: StrategyStatus, to: StrategyStatus },
    /// The caller lacks rights for the requested mutation.
    Unauthorized,
    /// Any other failure, described in prose.
    Generic(String),
}

impl ContractError {
    /// A generic error wrapping a prose description.
    pub fn generic_err(msg: String) -> (r: Self)
        ensures
            r == ContractError::Generic(msg),
    {
        ContractError::Generic(msg)
    }
}

/// The outcome of a contract call: either a response carrying outbound
/// messages, or an error.
pub type ContractResult = Result<Response, ContractError>;

/// The narrow condition subset that gates a `Trigger`. Distinct from the
/// general recursive condition tree: only time and height gates are
/// executable, and a limit-order gate is recognized but unimplemented.
#[derive(Debug)]
pub enum Condition {
    Timestamp { timestamp: u64 },
    BlockHeight { height: u64 },
    LimitOrder { swap_amount: Coin, minimum_receive_amount: Coin },
}

impl Clone for Condition {
    fn clone(&self) -> (res: Self)
        ensures
            res == *self,
    {
        match self {
            Condition::Timestamp { timestamp } => Condition::Timestamp { timestamp: *timestamp },
            Condition::BlockHeight { height } => Condition::BlockHeight { height: *height },
            Condition::LimitOrder { swap_amount, minimum_receive_amount } => Condition::LimitOrder {
                swap_amount: swap_amount.clone(),
                minimum_receive_amount: minimum_receive_amount.clone(),
            },
        }
    }
}

/// A filter over stored triggers, for paginated listing.
#[derive(Debug)]
pub enum ConditionFilter {
    Owner { address: String },
    Timestamp { start: Option<u64>, end: Option<u64> },
    BlockHeight { start: Option<u64>, end: Option<u64> },
    LimitOrder {},
}

/// A single outbound chain message: a call into another contract carrying a
/// payload and attached funds.
#[derive(Debug)]
pub enum CosmosMsg {
    WasmExecute { contract_addr: String, msg: Vec<u8>, funds: Vec<Coin> },
}

/// The successful outcome of a contract call: the outbound messages to
/// dispatch.
#[derive(Debug)]
pub struct Response {
    pub messages: Vec<CosmosMsg>,
}

/// An owner-bound, condition-gated single outbound call awaiting execution.
#[derive(Debug)]
pub struct Trigger {
    pub id: u64,
    pub owner: String,
    pub condition: Condition,
    pub msg: Vec<u8>,
    pub to: String,
    pub execution_rebate: Vec<Coin>,
}

/// Whether a trigger's condition permits execution in the given context.
/// Time and height gates compare against the context; a limit-order gate is
/// never executable.
pub open spec fn spec_can_execute(t: Trigger, env: Env) -> bool {
    match t.condition {
        Condition::Timestamp { timestamp } => timestamp > env.time,
        Condition::BlockHeight { height } => height > env.height,
        Condition::LimitOrder { .. } => false,
    }
}

/// What `execute` must return: a limit-order gate always fails as
/// unimplemented; an unmet gate fails as not met, carrying the condition;
/// otherwise exactly one outbound call to the trigger's target, with the
/// stored payload and no attached funds.
pub open spec fn spec_execute_result(t: Trigger, env: Env, r: ContractResult) -> bool {
    match t.condition {
        Condition::LimitOrder { .. } => r == Err::<Response, ContractError>(
            ContractError::NotImplemented,
        ),
        _ => {
            if !spec_can_execute(t, env) {
                r == Err::<Response, ContractError>(ContractError::ConditionNotMet(t.condition))
            } else {
                &&& r matches Ok(resp)
                &&& resp.messages@.len() == 1
                &&& resp.messages@[0] matches CosmosMsg::WasmExecute { contract_addr, msg, funds }
                &&& contract_addr@ == t.to@
                &&& msg@ == t.msg@
                &&& funds@.len() == 0
            }
        },
    }
}

/// Something gated by a narrow condition that can be queried for
/// executability and executed at most once.
pub trait Executable {
    /// Whether execution is currently permitted.
    spec fn spec_can_execute(&self, env: Env) -> bool;

    /// What execution must return in the given context.
    spec fn spec_execute_result(&self, env: Env, r: ContractResult) -> bool;

    /// Pure predicate: may this be executed now?
    fn can_execute(&self, env: &Env) -> (r: bool)
        ensures
            r == self.spec_can_execute(*env),
    ;

    /// Re-validates executability, then produces the outbound call or fails;
    /// never both.
    fn execute(&self, env: &Env) -> (r: ContractResult)
        ensures
            self.spec_execute_result(*env, r),
    ;
}

impl Executable for Trigger {
    open spec fn spec_can_execute(&self, env: Env) -> bool {
        spec_can_execute(*self, env)
    }

    open spec fn spec_execute_result(&self, env: Env, r: ContractResult) -> bool {
        spec_execute_result(*self, env, r)
    }

    fn can_execute(&self, env: &Env) -> (r: bool) {
        match &self.condition {
            Condition::Timestamp { timestamp } => *timestamp > env.time,
            Condition::BlockHeight { height } => *height > env.height,
            Condition::LimitOrder { .. } => false,
        }
    }

    fn execute(&self, env: &Env) -> (r: ContractResult) {
        if let Condition::LimitOrder { .. } = &self.condition {
            return Err(ContractError::NotImplemented);
        }
        if !self.can_execute(env) {
            return Err(ContractError::ConditionNotMet(self.condition.clone()));
        }
        let msg_payload = self.msg.clone();
        proof {
            assert(msg_payload@ =~= self.msg@);
        }
        let call = match Contract(self.to.clone()).call(msg_payload, Vec::new()) {
            Ok(m) => m,
            Err(e) => {
                return Err(e);
            },
        };
        let mut messages: Vec<CosmosMsg> = Vec::new();
        messages.push(call);
        Ok(Response { messages })
    }
}

/// A trigger executed while unmet fails as not met and yields no outbound
/// message; a limit-order trigger fails as unimplemented regardless of
/// state.
pub proof fn lemma_execute_rejections(t: Trigger, env: Env, r: ContractResult)
    requires
        spec_execute_result(t, env, r),
    ensures
        t.condition is LimitOrder ==> r == Err::<Response, ContractError>(
            ContractError::NotImplemented,
        ),
        !(t.condition is LimitOrder) && !spec_can_execute(t, env) ==> r == Err::<
            Response,
            ContractError,
        >(ContractError::ConditionNotMet(t.condition)),
        !spec_can_execute(t, env) ==> r is Err,
{
}

/// A handle on another contract, for building calls to it.
#[derive(Debug)]
pub struct Contract(pub String);

impl Contract {
    /// The address this handle points at.
    pub fn addr(&self) -> (r: String)
        ensures
            r == self.0,
    {
        self.0.clone()
    }

    /// An outbound execute message to this contract, carrying a payload and
    /// funds.
    pub fn call(&self, msg: Vec<u8>, funds: Vec<Coin>) -> (r: Result<CosmosMsg, ContractError>)
        ensures
            r == Ok::<CosmosMsg, ContractError>(
                CosmosMsg::WasmExecute { contract_addr: self.0, msg, funds },
            ),
    {
        Ok(CosmosMsg::WasmExecute { contract_addr: self.0.clone(), msg, funds })
    }
}

/// Lifecycle status of a strategy record. The same machine as the manager's
/// registry status: `Active` and `Paused` are interchangeable, `Archived` is
/// terminal.
#[derive(Clone, Copy, Debug, PartialEq, Eq, Structural)]
pub enum Status {
    Active,
    Paused,
    Archived,
}

/// Whether the lifecycle machine permits moving a strategy record from one
/// status to another: exactly `Active` to `Paused`, `Paused` to `Active`,
/// and either of those to `Archived`.
pub open spec fn spec_record_transition_allowed(from: Status, to: Status) -> bool {
    match (from, to) {
        (Status::Active, Status::Paused) => true,
        (Status::Active, Status::Archived) => true,
        (Status::Paused, Status::Active) => true,
        (Status::Paused, Status::Archived) => true,
        _ => false,
    }
}

/// The single byte a record status is keyed under in storage indexes.
pub open spec fn spec_record_key_byte(s: Status) -> u8 {
    match s {
        Status::Active => 0,
        Status::Paused => 1,
        Status::Archived => 2,
    }
}

impl Status {
    /// The single byte this status is keyed under in storage indexes.
    pub fn key_byte(&self) -> (r: u8)
        ensures
            r == spec_record_key_byte(*self),
    {
        match *self {
            Status::Active => 0,
            Status::Paused => 1,
            Status::Archived => 2,
        }
    }

    /// Whether the lifecycle machine permits moving from `self` to `to`.
    pub fn can_transition_to(&self, to: Status) -> (r: bool)
        ensures
            r == spec_record_transition_allowed(*self, to),
    {
        match (*self, to) {
            (Status::Active, Status::Paused) => true,
            (Status::Active, Status::Archived) => true,
            (Status::Paused, Status::Active) => true,
            (Status::Paused, Status::Archived) => true,
            _ => false,
        }
    }
}

/// `Archived` is absorbing for strategy records too: no transition out of
/// it is ever permitted.
pub proof fn lemma_record_archived_terminal(to: Status)
    ensures
        !spec_record_transition_allowed(Status::Archived, to),
{
}

/// An affiliate on a strategy record: a referral code, a payout address, and
/// a fee share in basis points.
#[derive(Debug)]
pub struct Affiliate {
    pub code: String,
    pub address: String,
    pub bps: u64,
}

/// A long-lived strategy record.
#[derive(Debug)]
pub struct Strategy {
    pub owner: String,
    pub contract_address: String,
    pub created_at: u64,
    pub updated_at: u64,
    pub executions: u64,
    pub label: String,
    pub status: Status,
    pub affiliates: Vec<Affiliate>,
}

/// Running totals of a dollar-cost-averaging strategy.
#[derive(Debug)]
pub struct DcaStatistics {
    pub amount_deposited: Coin,
    pub amount_swapped: Coin,
    pub amount_received: Coin,
}

/// Running totals of a newly created strategy.
#[derive(Debug)]
pub struct NewStatistics {
    pub amount: Coin,
}

/// Statistics attached to a strategy, by kind.
#[derive(Debug)]
pub enum StrategyStatistics {
    Dca(DcaStatistics),
    New(NewStatistics),
}

/// A recipient of swap proceeds, weighted by shares.
#[derive(Debug)]
pub struct Destination {
    pub address: String,
    pub shares: u128,
    pub msg: Option<Vec<u8>>,
    pub label: Option<String>,
}

/// When a dollar-cost-averaging strategy next runs: every fixed number of
/// blocks, or every fixed span of seconds.
#[derive(Debug)]
pub enum DcaSchedule {
    Blocks { interval: u64, previous: Option<u64> },
    Time { duration: u64, previous: Option<u64> },
}

/// Configuration of a dollar-cost-averaging strategy.
#[derive(Debug)]
pub struct DcaStrategyConfig {
    pub owner: String,
    pub swap_amount: Coin,
    pub minimum_receive_amount: Coin,
    pub schedule: DcaSchedule,
    pub exchange_contract: String,
    pub scheduler_contract: String,
    pub execution_rebate: Coin,
    pub affiliate_code: Option<String>,
    pub mutable_destinations: Vec<Destination>,
    pub immutable_destinations: Vec<Destination>,
    pub statistics: DcaStatistics,
}

/// Configuration of a custom strategy.
#[derive(Debug)]
pub struct CustomStrategyConfig {
    pub owner: String,
}

/// Configuration of a strategy, by kind.
#[derive(Debug)]
pub enum StrategyConfig {
    Dca(DcaStrategyConfig),
    Custom(CustomStrategyConfig),
}

impl StrategyConfig {
    /// Build a stored configuration from an instantiation request. A
    /// dollar-cost-averaging request is carried over field for field with
    /// zeroed statistics; a custom request gets the fixed placeholder owner.
    pub fn from(config: InstantiateStrategyConfig) -> (r: Self)
        ensures
            config matches InstantiateStrategyConfig::Dca {
                owner,
                swap_amount,
                minimum_receive_amount,
                schedule,
                exchange_contract,
                scheduler_contract,
                execution_rebate,
                affiliate_code,
                mutable_destinations,
                immutable_destinations,
            } ==> {
                &&& r matches StrategyConfig::Dca(d)
                &&& d.owner == owner
                &&& d.swap_amount == swap_amount
                &&& d.minimum_receive_amount == minimum_receive_amount
                &&& d.schedule == schedule
                &&& d.exchange_contract == exchange_contract
                &&& d.scheduler_contract == scheduler_contract
                &&& d.execution_rebate == execution_rebate
                &&& d.affiliate_code == affiliate_code
                &&& d.mutable_destinations == mutable_destinations
                &&& d.immutable_destinations == immutable_destinations
                &&& d.statistics.amount_deposited.denom@ == "uusd"@
                &&& d.statistics.amount_deposited.amount == 0
                &&& d.statistics.amount_swapped.denom@ == "uusd"@
                &&& d.statistics.amount_swapped.amount == 0
                &&& d.statistics.amount_received.denom@ == "uusd"@
                &&& d.statistics.amount_received.amount == 0
            },
            config matches InstantiateStrategyConfig::Custom {  } ==> {
                &&& r matches StrategyConfig::Custom(c)
                &&& c.owner@ == "custom_strategy_owner"@
            },
    {
        match config {
            InstantiateStrategyConfig::Dca {
                owner,
                swap_amount,
                minimum_receive_amount,
                schedule,
                exchange_contract,
                scheduler_contract,
                execution_rebate,
                affiliate_code,
                mutable_destinations,
                immutable_destinations,
            } => StrategyConfig::Dca(
                DcaStrategyConfig {
                    owner,
                    swap_amount,
                    minimum_receive_amount,
                    schedule,
                    exchange_contract,
                    scheduler_contract,
                    execution_rebate,
                    affiliate_code,
                    mutable_destinations,
                    immutable_destinations,
                    statistics: DcaStatistics {
                        amount_deposited: Coin { denom: "uusd".to_owned(), amount: 0 },
                        amount_swapped: Coin { denom: "uusd".to_owned(), amount: 0 },
                        amount_received: Coin { denom: "uusd".to_owned(), amount: 0 },
                    },
                },
            ),
            InstantiateStrategyConfig::Custom {  } => StrategyConfig::Custom(
                CustomStrategyConfig { owner: "custom_strategy_owner".to_owned() },
            ),
        }
    }
}

/// Something with a single owning address.
pub trait Owned {
    /// The owning address.
    spec fn spec_owner(&self) -> String;

    /// The owning address.
    fn owner(&self) -> (r: String)
        ensures
            r == self.spec_owner(),
    ;
}

impl Owned for StrategyConfig {
    open spec fn spec_owner(&self) -> String {
        match *self {
            StrategyConfig::Dca(ref d) => d.owner,
            StrategyConfig::Custom(ref c) => c.owner,
        }
    }

    fn owner(&self) -> (r: String)
        ensures
            r == self.spec_owner(),
    {
        match self {
            StrategyConfig::Dca(d) => d.owner.clone(),
            StrategyConfig::Custom(c) => c.owner.clone(),
        }
    }
}

/// A lifecycle, execution or scheduling outcome, emitted for audit and never
/// read back by the engine.
#[derive(Debug)]
pub enum DomainEvent {
    StrategyInstantiated { contract_address: String, config: StrategyConfig },
    StrategyPaused { contract_address: String, reason: String },
    StrategyArchived { contract_address: String },
    StrategyResumed { contract_address: String },
    StrategyUpdated { contract_address: String, old_config: StrategyConfig, new_config: StrategyConfig },
    FundsDeposited { contract_address: String, from: String, funds: Vec<Coin> },
    FundsWithdrawn { contract_address: String, to: String, funds: Vec<Coin> },
    ExecutionSucceeded { contract_address: String, statistics: StrategyStatistics },
    ExecutionFailed { contract_address: String, reason: String },
    ExecutionSkipped { contract_address: String, reason: String },
    SchedulingSucceeded { contract_address: String, conditions: Vec<Condition> },
    SchedulingFailed { contract_address: String, reason: String },
    SchedulingSkipped { contract_address: String, reason: String },
}

impl DomainEvent {
    /// The audit-log type tag this event is recorded under.
    pub fn event_type(&self) -> (r: String)
        ensures
            *self is StrategyInstantiated ==> r@ == "strategy_created"@,
            *self is StrategyPaused ==> r@ == "strategy_paused"@,
            *self is StrategyArchived ==> r@ == "strategy_archived"@,
            *self is StrategyResumed ==> r@ == "strategy_resumed"@,
            *self is StrategyUpdated ==> r@ == "strategy_updated"@,
            *self is FundsDeposited ==> r@ == "funds_deposited"@,
            *self is FundsWithdrawn ==> r@ == "funds_withdrawn"@,
            *self is ExecutionSucceeded ==> r@ == "execution_succeeded"@,
            *self is ExecutionFailed ==> r@ == "execution_failed"@,
            *self is ExecutionSkipped ==> r@ == "execution_skipped"@,
            *self is SchedulingSucceeded ==> r@ == "scheduling_succeeded"@,
            *self is SchedulingFailed ==> r@ == "scheduling_failed"@,
            *self is SchedulingSkipped ==> r@ == "scheduling_skipped"@,
    {
        match self {
            DomainEvent::StrategyInstantiated { .. } => "strategy_created".to_owned(),
            DomainEvent::StrategyPaused { .. } => "strategy_paused".to_owned(),
            DomainEvent::StrategyArchived { .. } => "strategy_archived".to_owned(),
            DomainEvent::StrategyResumed { .. } => "strategy_resumed".to_owned(),
            DomainEvent::StrategyUpdated { .. } => "strategy_updated".to_owned(),
            DomainEvent::FundsDeposited { .. } => "funds_deposited".to_owned(),
            DomainEvent::FundsWithdrawn { .. } => "funds_withdrawn".to_owned(),
            DomainEvent::ExecutionSucceeded { .. } => "execution_succeeded".to_owned(),
            DomainEvent::ExecutionFailed { .. } => "execution_failed".to_owned(),
            DomainEvent::ExecutionSkipped { .. } => "execution_skipped".to_owned(),
            DomainEvent::SchedulingSucceeded { .. } => "scheduling_succeeded".to_owned(),
            DomainEvent::SchedulingFailed { .. } => "scheduling_failed".to_owned(),
            DomainEvent::SchedulingSkipped { .. } => "scheduling_skipped".to_owned(),
        }
    }
}

/// The expected proceeds of a swap with its projected slippage, in atomic
/// decimal units.
#[derive(Debug)]
pub struct ExpectedReturnAmount {
    pub return_amount: Coin,
    pub slippage: u128,
}

/// The manager contract's top-level configuration.
#[derive(Debug)]
pub struct ManagerConfig {
    pub admin: String,
    pub code_id: u64,
    pub fee_collector: String,
}

} // verus!
