//! The recursive condition data model, its satisfaction semantics against a
//! frozen state snapshot, and its complexity accounting.
use vstd::prelude::*;

use crate::assets::layer1_resolution;
use crate::assets::resolve_layer1_denom;
use crate::fingerprint::fnv1a_hash;
use crate::fingerprint::push_le_u128;
use crate::fingerprint::push_le_u64;
use crate::fingerprint::push_str_encoding;
use crate::fingerprint::spec_encode_str;
use crate::fingerprint::spec_fingerprint;
use crate::fingerprint::spec_le_bytes;
use crate::manager::StrategyStatus;
use crate::state::Coin;
use crate::state::Env;
use crate::state::Side;
use crate::state::StateSnapshot;
use crate::state::spec_balance_of;
use crate::state::spec_find_order;
use crate::state::spec_find_price;
use crate::state::spec_find_strategy;
use crate::swap::Swap;
use crate::swap::SwapRoute;
use crate::swap::lemma_best_prefix_char;
use crate::swap::spec_best_route;
use crate::swap::spec_first_missing_sim;
use crate::swap::spec_route_pair;
use crate::swap::spec_route_sim;
use crate::swap::spec_route_viable;
use crate::types::ContractError;
use crate::types::QueryFailure;

verus! {

/// Composition policy for a `CompositeCondition`: all children must hold, or
/// at least one must.
#[derive(Clone, Copy, Debug, PartialEq, Eq, Structural)]
pub enum Threshold {
    All,
    Any,
}

/// Which side of a target rate an oracle price must lie on.
#[derive(Clone, Copy, Debug, PartialEq, Eq, Structural)]
pub enum Direction {
    Above,
    Below,
}

/// A named sequence of conditions combined under a threshold, itself usable
/// as a condition, enabling arbitrary-depth boolean trees.
#[derive(Debug)]
pub struct CompositeCondition {
    pub conditions: Vec<Condition>,
    pub threshold: Threshold,
}

/// A boolean predicate over chain and contract state, possibly composite.
/// Fixed-point decimal fields carry their atomic representation; times are
/// nanoseconds.
#[derive(Debug)]
pub enum Condition {
    TimestampElapsed(u64),
    BlocksCompleted(u64),
    CanSwap(Swap),
    LimitOrderFilled { owner: String, pair_address: String, side: Side, price: u128 },
    BalanceAvailable { address: String, amount: Coin },
    StrategyBalanceAvailable { amount: Coin },
    StrategyStatus { manager_contract: String, contract_address: String, status: StrategyStatus },
    OraclePrice { asset: String, direction: Direction, rate: u128 },
    Not(Box<Condition>),
    Composite(CompositeCondition),
}

/// A failure met while evaluating a condition, described over the views of
/// the offending keys: either a state query the snapshot cannot answer, or
/// an oracle asset that does not resolve.
pub enum EvalIssue {
    OrderNotFound { pair_address: Seq<char>, owner: Seq<char>, side: Side, price: u128 },
    StrategyNotFound { manager_contract: Seq<char>, contract_address: Seq<char> },
    PriceNotFound { asset: Seq<char> },
    SimulationNotFound { pair_address: Seq<char> },
    AssetUnresolvable { denom: Seq<char>, cause: Seq<char> },
}

/// Whether a returned error carries exactly the failure the evaluation
/// semantics assign, variant for variant and field for field.
pub open spec fn eval_error_matches(e: ContractError, i: EvalIssue) -> bool {
    match i {
        EvalIssue::OrderNotFound { pair_address, owner, side, price } => e matches
            ContractError::StateQueryFailure(
            QueryFailure::Order { pair_address: p2, owner: o2, side: s2, price: r2 },
        ) && p2@ == pair_address && o2@ == owner && s2 == side && r2 == price,
        EvalIssue::StrategyNotFound { manager_contract, contract_address } => e matches
            ContractError::StateQueryFailure(
            QueryFailure::Strategy { manager_contract: m2, contract_address: c2 },
        ) && m2@ == manager_contract && c2@ == contract_address,
        EvalIssue::PriceNotFound { asset } => e matches ContractError::StateQueryFailure(
            QueryFailure::OraclePrice { asset: a2 },
        ) && a2@ == asset,
        EvalIssue::SimulationNotFound { pair_address } => e matches
            ContractError::StateQueryFailure(QueryFailure::Simulation { pair_address: p2 }) && p2@
            == pair_address,
        EvalIssue::AssetUnresolvable { denom, cause } => e matches
            ContractError::UnresolvableAsset { denom: d2, cause: c2 } && d2@ == denom && c2@
            == cause,
    }
}

/// What evaluating a swap condition yields: a failure for the first route
/// whose simulation the snapshot cannot answer, else whether a viable route
/// exists.
pub open spec fn spec_eval_swap(swap: Swap, deps: StateSnapshot) -> Result<bool, EvalIssue> {
    match spec_first_missing_sim(swap.routes@, deps) {
        Some(m) => Err(
            EvalIssue::SimulationNotFound { pair_address: spec_route_pair(swap.routes@[m]) },
        ),
        None => Ok(spec_best_route(swap, deps) is Some),
    }
}

/// The satisfaction semantics of a condition against a snapshot: a pure
/// function of the tree and the frozen state. Time and height gates are
/// strict; a balance gate is inclusive; a query the snapshot cannot answer
/// is a failure, never a `false`. Children of a composite are evaluated left
/// to right and the first failure wins.
pub open spec fn spec_eval(c: Condition, deps: StateSnapshot, env: Env) -> Result<bool, EvalIssue>
    decreases c,
{
    match c {
        Condition::TimestampElapsed(t) => Ok(env.time > t),
        Condition::BlocksCompleted(h) => Ok(env.height > h),
        Condition::CanSwap(swap) => spec_eval_swap(swap, deps),
        Condition::LimitOrderFilled { owner, pair_address, side, price } => {
            match spec_find_order(deps.orders@, pair_address@, owner@, side, price) {
                Some(o) => Ok(o.remaining == 0),
                None => Err(
                    EvalIssue::OrderNotFound {
                        pair_address: pair_address@,
                        owner: owner@,
                        side,
                        price,
                    },
                ),
            }
        },
        Condition::BalanceAvailable { address, amount } => Ok(
            spec_balance_of(deps.balances@, address@, amount.denom@) >= amount.amount,
        ),
        Condition::StrategyBalanceAvailable { amount } => Ok(
            spec_balance_of(deps.balances@, env.contract_address@, amount.denom@)
                >= amount.amount,
        ),
        Condition::StrategyStatus { manager_contract, contract_address, status } => {
            match spec_find_strategy(deps.strategies@, manager_contract@, contract_address@) {
                Some(h) => Ok(h.status == status),
                None => Err(
                    EvalIssue::StrategyNotFound {
                        manager_contract: manager_contract@,
                        contract_address: contract_address@,
                    },
                ),
            }
        },
        Condition::OraclePrice { asset, direction, rate } => {
            match layer1_resolution(asset@) {
                Ok(resolved) => match spec_find_price(deps.prices@, resolved) {
                    Some(p) => Ok(
                        match direction {
                            Direction::Above => p > rate,
                            Direction::Below => p < rate,
                        },
                    ),
                    None => Err(EvalIssue::PriceNotFound { asset: asset@ }),
                },
                Err(cause) => Err(EvalIssue::AssetUnresolvable { denom: asset@, cause }),
            }
        },
        Condition::Not(inner) => match spec_eval(*inner, deps, env) {
            Ok(b) => Ok(!b),
            Err(i) => Err(i),
        },
        Condition::Composite(cc) => spec_eval_seq(cc.conditions@, cc.threshold, deps, env),
    }
}

/// Evaluation of a sequence of sibling conditions under a threshold: every
/// child is evaluated, the first failure wins, and on success the values
/// reduce by conjunction for `All` and disjunction for `Any`.
pub open spec fn spec_eval_seq(
    s: Seq<Condition>,
    th: Threshold,
    deps: StateSnapshot,
    env: Env,
) -> Result<bool, EvalIssue>
    decreases s,
{
    if s.len() == 0 {
        Ok(th is All)
    } else {
        match spec_eval(s[0], deps, env) {
            Err(i) => Err(i),
            Ok(b0) => match spec_eval_seq(s.drop_first(), th, deps, env) {
                Err(i) => Err(i),
                Ok(rest) => Ok(
                    match th {
                        Threshold::All => b0 && rest,
                        Threshold::Any => b0 || rest,
                    },
                ),
            },
        }
    }
}

/// If every child before `i` evaluates cleanly and the one at `i` fails,
/// the sequence fails with exactly that child's failure.
proof fn lemma_eval_seq_err_at(
    s: Seq<Condition>,
    th: Threshold,
    deps: StateSnapshot,
    env: Env,
    i: int,
)
    requires
        0 <= i < s.len(),
        forall|j: int| 0 <= j < i ==> spec_eval(#[trigger] s[j], deps, env) is Ok,
        spec_eval(s[i], deps, env) is Err,
    ensures
        spec_eval_seq(s, th, deps, env) == Err::<bool, EvalIssue>(
            spec_eval(s[i], deps, env)->Err_0,
        ),
    decreases i,
{
    if i > 0 {
        lemma_eval_seq_err_at(s.drop_first(), th, deps, env, i - 1);
    }
}

/// When every child evaluates cleanly, the sequence evaluates cleanly too:
/// under `All` to whether every child holds, under `Any` to whether at least
/// one does.
pub proof fn lemma_eval_seq_ok(s: Seq<Condition>, th: Threshold, deps: StateSnapshot, env: Env)
    requires
        forall|j: int| 0 <= j < s.len() ==> spec_eval(#[trigger] s[j], deps, env) is Ok,
    ensures
        th is All ==> spec_eval_seq(s, th, deps, env) == Ok::<bool, EvalIssue>(
            forall|j: int|
                0 <= j < s.len() ==> spec_eval(#[trigger] s[j], deps, env) == Ok::<
                    bool,
                    EvalIssue,
                >(true),
        ),
        th is Any ==> spec_eval_seq(s, th, deps, env) == Ok::<bool, EvalIssue>(
            exists|j: int|
                0 <= j < s.len() && spec_eval(#[trigger] s[j], deps, env) == Ok::<
                    bool,
                    EvalIssue,
                >(true),
        ),
    decreases s,
{
    if s.len() > 0 {
        let tail = s.drop_first();
        lemma_eval_seq_ok(tail, th, deps, env);
        assert forall|j: int| 0 <= j < tail.len() implies (spec_eval(
            #[trigger] tail[j],
            deps,
            env,
        ) == spec_eval(s[j + 1], deps, env)) by {
            assert(tail[j] == s[j + 1]);
        }
        let head_true = spec_eval(s[0], deps, env) == Ok::<bool, EvalIssue>(true);
        if th is All {
            let all_tail = forall|j: int|
                0 <= j < tail.len() ==> spec_eval(#[trigger] tail[j], deps, env) == Ok::<
                    bool,
                    EvalIssue,
                >(true);
            let all_s = forall|j: int|
                0 <= j < s.len() ==> spec_eval(#[trigger] s[j], deps, env) == Ok::<
                    bool,
                    EvalIssue,
                >(true);
            assert((head_true && all_tail) == all_s) by {
                if head_true && all_tail {
                    assert forall|j: int| 0 <= j < s.len() implies spec_eval(
                        #[trigger] s[j],
                        deps,
                        env,
                    ) == Ok::<bool, EvalIssue>(true) by {
                        if j > 0 {
                            assert(tail[j - 1] == s[j]);
                        }
                    }
                }
                if all_s {
                    assert forall|j: int| 0 <= j < tail.len() implies spec_eval(
                        #[trigger] tail[j],
                        deps,
                        env,
                    ) == Ok::<bool, EvalIssue>(true) by {
                        assert(tail[j] == s[j + 1]);
                    }
                }
            }
        } else {
            let any_tail = exists|j: int|
                0 <= j < tail.len() && spec_eval(#[trigger] tail[j], deps, env) == Ok::<
                    bool,
                    EvalIssue,
                >(true);
            let any_s = exists|j: int|
                0 <= j < s.len() && spec_eval(#[trigger] s[j], deps, env) == Ok::<
                    bool,
                    EvalIssue,
                >(true);
            assert((head_true || any_tail) == any_s) by {
                if head_true {
                    assert(0 <= 0 < s.len() && spec_eval(s[0], deps, env) == Ok::<
                        bool,
                        EvalIssue,
                    >(true));
                } else if any_tail {
                    let j = choose|j: int|
                        0 <= j < tail.len() && spec_eval(#[trigger] tail[j], deps, env) == Ok::<
                            bool,
                            EvalIssue,
                        >(true);
                    assert(s[j + 1] == tail[j]);
                    assert(0 <= j + 1 < s.len() && spec_eval(s[j + 1], deps, env) == Ok::<
                        bool,
                        EvalIssue,
                    >(true));
                }
                if any_s && !head_true {
                    let j = choose|j: int|
                        0 <= j < s.len() && spec_eval(#[trigger] s[j], deps, env) == Ok::<
                            bool,
                            EvalIssue,
                        >(true);
                    assert(j > 0);
                    assert(tail[j - 1] == s[j]);
                    assert(0 <= j - 1 < tail.len() && spec_eval(tail[j - 1], deps, env) == Ok::<
                        bool,
                        EvalIssue,
                    >(true));
                }
            }
        }
    }
}

/// Structural complexity of a condition: queries against external state cost
/// two, local comparisons cost one, `Not` costs the same as its child, and a
/// composite costs one more than the sum of its children.
pub open spec fn spec_size(c: Condition) -> nat
    decreases c,
{
    match c {
        Condition::TimestampElapsed(_) => 1,
        Condition::BlocksCompleted(_) => 1,
        Condition::CanSwap(_) => 2,
        Condition::LimitOrderFilled { .. } => 2,
        Condition::BalanceAvailable { .. } => 1,
        Condition::StrategyBalanceAvailable { .. } => 1,
        Condition::StrategyStatus { .. } => 2,
        Condition::OraclePrice { .. } => 2,
        Condition::Not(inner) => spec_size(*inner),
        Condition::Composite(cc) => 1 + spec_size_seq(cc.conditions@),
    }
}

pub open spec fn spec_size_seq(s: Seq<Condition>) -> nat
    decreases s,
{
    if s.len() == 0 {
        0
    } else {
        spec_size(s[0]) + spec_size_seq(s.drop_first())
    }
}

impl Condition {
    /// The complexity cost of this condition, a gas-budget proxy.
    pub fn size(&self) -> (r: usize)
        requires
            spec_size(*self) <= usize::MAX,
        ensures
            r == spec_size(*self),
        decreases *self,
    {
        match self {
            Condition::TimestampElapsed(_) => 1,
            Condition::BlocksCompleted(_) => 1,
            Condition::CanSwap(_) => 2,
            Condition::LimitOrderFilled { .. } => 2,
            Condition::BalanceAvailable { .. } => 1,
            Condition::StrategyBalanceAvailable { .. } => 1,
            Condition::StrategyStatus { .. } => 2,
            Condition::OraclePrice { .. } => 2,
            Condition::Not(inner) => inner.size(),
            Condition::Composite(cc) => {
                let mut total: usize = 0;
                let n = cc.conditions.len();
                for i in 0..n
                    invariant
                        n == cc.conditions.len(),
                        total == spec_size_seq(cc.conditions@.take(i as int)),
                        spec_size(*self) <= usize::MAX,
                        self is Composite,
                        cc == self->Composite_0,
                    decreases n - i,
                {
                    proof {
                        lemma_size_seq_take_step(cc.conditions@, i as int);
                        lemma_size_seq_prefix_bound(cc.conditions@, i + 1);
                        lemma_size_seq_elem_bound(cc.conditions@, i as int);
                        assert(decreases_to!(*self => self->Composite_0));
                        assert(decreases_to!(self->Composite_0 => self->Composite_0.conditions));
                        assert(decreases_to!(self->Composite_0.conditions => self->Composite_0.conditions@));
                        assert(decreases_to!(self->Composite_0.conditions@ => self->Composite_0.conditions@[i as int]));
                    }
                    total = total + cc.conditions[i].size();
                }
                proof {
                    assert(cc.conditions@.take(n as int) =~= cc.conditions@);
                }
                total + 1
            },
        }
    }

    /// Whether this condition is satisfied against the snapshot at the given
    /// context: exactly the satisfaction semantics, with every state-read
    /// failure propagated as an error.
    pub fn is_satisfied(&self, deps: &StateSnapshot, env: &Env) -> (r: Result<bool, ContractError>)
        ensures
            spec_eval(*self, *deps, *env) matches Ok(b) ==> r == Ok::<bool, ContractError>(b),
            spec_eval(*self, *deps, *env) matches Err(i) ==> r matches Err(e)
                && eval_error_matches(e, i),
        decreases *self,
    {
        match self {
            Condition::TimestampElapsed(t) => Ok(env.time > *t),
            Condition::BlocksCompleted(h) => Ok(env.height > *h),
            Condition::CanSwap(swap) => match swap.best_route(deps, env) {
                Ok(opt) => Ok(opt.is_some()),
                Err(e) => Err(e),
            },
            Condition::LimitOrderFilled { owner, pair_address, side, price } => {
                match deps.query_order(pair_address, owner, *side, *price) {
                    Some(o) => Ok(o.remaining == 0),
                    None => Err(
                        ContractError::StateQueryFailure(
                            QueryFailure::Order {
                                pair_address: pair_address.clone(),
                                owner: owner.clone(),
                                side: *side,
                                price: *price,
                            },
                        ),
                    ),
                }
            },
            Condition::BalanceAvailable { address, amount } => Ok(
                deps.query_balance(address, &amount.denom) >= amount.amount,
            ),
            Condition::StrategyBalanceAvailable { amount } => Ok(
                deps.query_balance(&env.contract_address, &amount.denom) >= amount.amount,
            ),
            Condition::StrategyStatus { manager_contract, contract_address, status } => {
                match deps.query_strategy(manager_contract, contract_address) {
                    Some(h) => Ok(h.status == *status),
                    None => Err(
                        ContractError::StateQueryFailure(
                            QueryFailure::Strategy {
                                manager_contract: manager_contract.clone(),
                                contract_address: contract_address.clone(),
                            },
                        ),
                    ),
                }
            },
            Condition::OraclePrice { asset, direction, rate } => {
                match resolve_layer1_denom(asset) {
                    Err(cause) => Err(
                        ContractError::UnresolvableAsset { denom: asset.clone(), cause },
                    ),
                    Ok(resolved) => match deps.query_price(&resolved) {
                        Some(p) => Ok(
                            match direction {
                                Direction::Above => p > *rate,
                                Direction::Below => p < *rate,
                            },
                        ),
                        None => Err(
                            ContractError::StateQueryFailure(
                                QueryFailure::OraclePrice { asset: asset.clone() },
                            ),
                        ),
                    },
                }
            },
            Condition::Not(inner) => {
                proof {
                    assert(decreases_to!(*self => self->Not_0));
                }
                match inner.is_satisfied(deps, env) {
                    Ok(b) => Ok(!b),
                    Err(e) => Err(e),
                }
            },
            Condition::Composite(cc) => {
                let n = cc.conditions.len();
                let mut all_true: bool = true;
                let mut any_true: bool = false;
                for i in 0..n
                    invariant
                        n == cc.conditions.len(),
                        self is Composite,
                        cc == self->Composite_0,
                        forall|j: int|
                            0 <= j < i ==> spec_eval(#[trigger] cc.conditions@[j], *deps, *env)
                                is Ok,
                        all_true == (forall|j: int|
                            0 <= j < i ==> spec_eval(#[trigger] cc.conditions@[j], *deps, *env)
                                == Ok::<bool, EvalIssue>(true)),
                        any_true == (exists|j: int|
                            0 <= j < i && spec_eval(#[trigger] cc.conditions@[j], *deps, *env)
                                == Ok::<bool, EvalIssue>(true)),
                    decreases n - i,
                {
                    proof {
                        assert(decreases_to!(*self => self->Composite_0));
                        assert(decreases_to!(self->Composite_0 => self->Composite_0.conditions));
                        assert(decreases_to!(self->Composite_0.conditions => self->Composite_0.conditions@));
                        assert(decreases_to!(self->Composite_0.conditions@ => self->Composite_0.conditions@[i as int]));
                    }
                    let ghost prev_all = all_true;
                    let ghost prev_any = any_true;
                    match cc.conditions[i].is_satisfied(deps, env) {
                        Ok(b) => {
                            all_true = all_true && b;
                            any_true = any_true || b;
                            proof {
                                assert(all_true == (forall|j: int|
                                    0 <= j < i + 1 ==> spec_eval(
                                        #[trigger] cc.conditions@[j],
                                        *deps,
                                        *env,
                                    ) == Ok::<bool, EvalIssue>(true))) by {
                                    if prev_all && b {
                                        assert forall|j: int| 0 <= j < i + 1 implies spec_eval(
                                            #[trigger] cc.conditions@[j],
                                            *deps,
                                            *env,
                                        ) == Ok::<bool, EvalIssue>(true) by {}
                                    }
                                }
                                assert(any_true == (exists|j: int|
                                    0 <= j < i + 1 && spec_eval(
                                        #[trigger] cc.conditions@[j],
                                        *deps,
                                        *env,
                                    ) == Ok::<bool, EvalIssue>(true))) by {
                                    if b {
                                        assert(spec_eval(cc.conditions@[i as int], *deps, *env)
                                            == Ok::<bool, EvalIssue>(true));
                                    }
                                }
                            }
                        },
                        Err(e) => {
                            proof {
                                lemma_eval_seq_err_at(
                                    cc.conditions@,
                                    cc.threshold,
                                    *deps,
                                    *env,
                                    i as int,
                                );
                            }
                            return Err(e);
                        },
                    }
                }
                proof {
                    lemma_eval_seq_ok(cc.conditions@, cc.threshold, *deps, *env);
                }
                match cc.threshold {
                    Threshold::All => Ok(all_true),
                    Threshold::Any => Ok(any_true),
                }
            },
        }
    }
}

/// Each element's size is bounded by the size of the whole sequence.
proof fn lemma_size_seq_elem_bound(s: Seq<Condition>, i: int)
    requires
        0 <= i < s.len(),
    ensures
        spec_size(s[i]) <= spec_size_seq(s),
    decreases i,
{
    if i > 0 {
        lemma_size_seq_elem_bound(s.drop_first(), i - 1);
    }
}

/// Extending a prefix by one element adds that element's size.
proof fn lemma_size_seq_take_step(s: Seq<Condition>, i: int)
    requires
        0 <= i < s.len(),
    ensures
        spec_size_seq(s.take(i + 1)) == spec_size_seq(s.take(i)) + spec_size(s[i]),
    decreases i,
{
    if i == 0 {
        assert(s.take(1).drop_first() =~= s.take(0));
        assert(s.take(1)[0] == s[0]);
    } else {
        assert(s.take(i + 1).drop_first() =~= s.drop_first().take(i));
        assert(s.take(i).drop_first() =~= s.drop_first().take(i - 1));
        lemma_size_seq_take_step(s.drop_first(), i - 1);
    }
}

/// The size of a prefix never exceeds the size of the whole sequence.
proof fn lemma_size_seq_prefix_bound(s: Seq<Condition>, i: int)
    requires
        0 <= i <= s.len(),
    ensures
        spec_size_seq(s.take(i)) <= spec_size_seq(s),
    decreases i,
{
    if i > 0 {
        lemma_size_seq_take_step(s, i - 1);
        lemma_size_seq_prefix_bound(s, i - 1);
        assert(spec_size_seq(s.take(i - 1)) + spec_size(s[i - 1]) <= spec_size_seq(s)) by {
            lemma_size_seq_split(s, i);
        }
    }
}

/// Splitting a sequence at any point splits its size additively.
pub proof fn lemma_size_seq_split(s: Seq<Condition>, i: int)
    requires
        0 <= i <= s.len(),
    ensures
        spec_size_seq(s) == spec_size_seq(s.take(i)) + spec_size_seq(s.skip(i)),
    decreases i,
{
    if i == 0 {
        assert(s.take(0) =~= Seq::<Condition>::empty());
        assert(s.skip(0) =~= s);
    } else {
        lemma_size_seq_take_step(s, i - 1);
        lemma_size_seq_split(s, i - 1);
        assert(s.skip(i - 1).drop_first() =~= s.skip(i));
        assert(s.skip(i - 1)[0] == s[i - 1]);
    }
}

/// The canonical encoding of a coin: its denomination, then its amount as
/// sixteen little-endian bytes.
pub open spec fn spec_encode_coin(c: Coin) -> Seq<u8> {
    spec_encode_str(c.denom@) + spec_le_bytes(c.amount as nat, 16)
}

/// The tag byte of an order-book side.
pub open spec fn spec_side_byte(s: Side) -> u8 {
    match s {
        Side::Base => 0,
        Side::Quote => 1,
    }
}

/// The tag byte of a price direction.
pub open spec fn spec_direction_byte(d: Direction) -> u8 {
    match d {
        Direction::Above => 0,
        Direction::Below => 1,
    }
}

/// The tag byte of a lifecycle status.
pub open spec fn spec_status_byte(st: StrategyStatus) -> u8 {
    match st {
        StrategyStatus::Active => 0,
        StrategyStatus::Paused => 1,
        StrategyStatus::Archived => 2,
    }
}

/// The tag byte of a composition threshold.
pub open spec fn spec_threshold_byte(t: Threshold) -> u8 {
    match t {
        Threshold::All => 0,
        Threshold::Any => 1,
    }
}

/// The tag byte of an amount-adjustment policy.
pub open spec fn spec_adjustment_byte(a: crate::swap::SwapAmountAdjustment) -> u8 {
    match a {
        crate::swap::SwapAmountAdjustment::Fixed => 0,
    }
}

/// The canonical encoding of one candidate route.
pub open spec fn spec_encode_route(r: SwapRoute) -> Seq<u8> {
    match r {
        SwapRoute::Fin(f) => seq![0u8] + spec_encode_str(f.pair_address@),
    }
}

/// The canonical encoding of a route list, in order.
pub open spec fn spec_encode_routes(s: Seq<SwapRoute>) -> Seq<u8>
    decreases s,
{
    if s.len() == 0 {
        Seq::empty()
    } else {
        spec_encode_route(s[0]) + spec_encode_routes(s.drop_first())
    }
}

/// The canonical encoding of a swap intent, field for field in declaration
/// order, the route list length-prefixed.
pub open spec fn spec_encode_swap(swap: Swap) -> Seq<u8> {
    spec_encode_coin(swap.swap_amount) + spec_encode_coin(swap.minimum_receive_amount)
        + spec_le_bytes(swap.maximum_slippage_bps as nat, 8) + seq![
        spec_adjustment_byte(swap.adjustment),
    ] + spec_le_bytes(swap.routes@.len(), 8) + spec_encode_routes(swap.routes@)
}

/// The canonical, order-stable encoding of a condition: a tag byte per
/// variant, then its fields, child lists length-prefixed.
pub open spec fn spec_encode(c: Condition) -> Seq<u8>
    decreases c,
{
    match c {
        Condition::TimestampElapsed(t) => seq![0u8] + spec_le_bytes(t as nat, 8),
        Condition::BlocksCompleted(h) => seq![1u8] + spec_le_bytes(h as nat, 8),
        Condition::CanSwap(swap) => seq![2u8] + spec_encode_swap(swap),
        Condition::LimitOrderFilled { owner, pair_address, side, price } => seq![3u8]
            + spec_encode_str(owner@) + spec_encode_str(pair_address@) + seq![
            spec_side_byte(side),
        ] + spec_le_bytes(price as nat, 16),
        Condition::BalanceAvailable { address, amount } => seq![4u8] + spec_encode_str(address@)
            + spec_encode_coin(amount),
        Condition::StrategyBalanceAvailable { amount } => seq![5u8] + spec_encode_coin(amount),
        Condition::StrategyStatus { manager_contract, contract_address, status } => seq![6u8]
            + spec_encode_str(manager_contract@) + spec_encode_str(contract_address@) + seq![
            spec_status_byte(status),
        ],
        Condition::OraclePrice { asset, direction, rate } => seq![7u8] + spec_encode_str(asset@)
            + seq![spec_direction_byte(direction)] + spec_le_bytes(rate as nat, 16),
        Condition::Not(inner) => seq![8u8] + spec_encode(*inner),
        Condition::Composite(cc) => seq![9u8] + seq![spec_threshold_byte(cc.threshold)]
            + spec_le_bytes(cc.conditions@.len(), 8) + spec_encode_seq(cc.conditions@),
    }
}

/// The canonical encoding of a child list, in order.
pub open spec fn spec_encode_seq(s: Seq<Condition>) -> Seq<u8>
    decreases s,
{
    if s.len() == 0 {
        Seq::empty()
    } else {
        spec_encode(s[0]) + spec_encode_seq(s.drop_first())
    }
}

/// The deterministic 64-bit fingerprint of an owner and a condition: the
/// FNV-1a hash of the owner's encoding followed by the condition's.
pub open spec fn spec_condition_id(owner: Seq<char>, c: Condition) -> u64 {
    spec_fingerprint(spec_encode_str(owner) + spec_encode(c))
}

/// Extending an encoded route prefix by one route appends that route's
/// encoding.
proof fn lemma_encode_routes_take_step(s: Seq<SwapRoute>, i: int)
    requires
        0 <= i < s.len(),
    ensures
        spec_encode_routes(s.take(i + 1)) == spec_encode_routes(s.take(i)) + spec_encode_route(
            s[i],
        ),
    decreases i,
{
    if i == 0 {
        assert(s.take(1).drop_first() =~= s.take(0));
        assert(s.take(1)[0] == s[0]);
        assert(spec_encode_routes(s.take(0)) =~= Seq::<u8>::empty());
        assert(spec_encode_routes(s.take(1)) =~= spec_encode_route(s[0]));
    } else {
        assert(s.take(i + 1).drop_first() =~= s.drop_first().take(i));
        assert(s.take(i).drop_first() =~= s.drop_first().take(i - 1));
        lemma_encode_routes_take_step(s.drop_first(), i - 1);
        assert(s.take(i + 1)[0] == s[0]);
        assert(s.take(i)[0] == s[0]);
    }
}

/// Extending an encoded child prefix by one child appends that child's
/// encoding.
proof fn lemma_encode_seq_take_step(s: Seq<Condition>, i: int)
    requires
        0 <= i < s.len(),
    ensures
        spec_encode_seq(s.take(i + 1)) == spec_encode_seq(s.take(i)) + spec_encode(s[i]),
    decreases i,
{
    if i == 0 {
        assert(s.take(1).drop_first() =~= s.take(0));
        assert(s.take(1)[0] == s[0]);
        assert(spec_encode_seq(s.take(0)) =~= Seq::<u8>::empty());
        assert(spec_encode_seq(s.take(1)) =~= spec_encode(s[0]));
    } else {
        assert(s.take(i + 1).drop_first() =~= s.drop_first().take(i));
        assert(s.take(i).drop_first() =~= s.drop_first().take(i - 1));
        lemma_encode_seq_take_step(s.drop_first(), i - 1);
        assert(s.take(i + 1)[0] == s[0]);
        assert(s.take(i)[0] == s[0]);
    }
}

/// Append the canonical encoding of a coin.
fn push_coin_encoding(out: &mut Vec<u8>, c: &Coin)
    ensures
        final(out)@ == old(out)@ + spec_encode_coin(*c),
{
    push_str_encoding(out, &c.denom);
    push_le_u128(out, c.amount);
}

/// Append the canonical encoding of a swap intent.
fn push_swap_encoding(out: &mut Vec<u8>, swap: &Swap)
    ensures
        final(out)@ == old(out)@ + spec_encode_swap(*swap),
{
    push_coin_encoding(out, &swap.swap_amount);
    push_coin_encoding(out, &swap.minimum_receive_amount);
    push_le_u64(out, swap.maximum_slippage_bps);
    match swap.adjustment {
        crate::swap::SwapAmountAdjustment::Fixed => out.push(0u8),
    }
    let n = swap.routes.len();
    push_le_u64(out, n as u64);
    let ghost prefix = out@;
    for i in 0..n
        invariant
            n == swap.routes.len(),
            out@ == prefix + spec_encode_routes(swap.routes@.take(i as int)),
        decreases n - i,
    {
        proof {
            lemma_encode_routes_take_step(swap.routes@, i as int);
        }
        match &swap.routes[i] {
            SwapRoute::Fin(f) => {
                out.push(0u8);
                push_str_encoding(out, &f.pair_address);
            },
        }
    }
    proof {
        assert(swap.routes@.take(n as int) =~= swap.routes@);
    }
}

impl Condition {
    /// Append the canonical encoding of this condition.
    fn encode_into(&self, out: &mut Vec<u8>)
        ensures
            final(out)@ == old(out)@ + spec_encode(*self),
        decreases *self,
    {
        match self {
            Condition::TimestampElapsed(t) => {
                out.push(0u8);
                push_le_u64(out, *t);
            },
            Condition::BlocksCompleted(h) => {
                out.push(1u8);
                push_le_u64(out, *h);
            },
            Condition::CanSwap(swap) => {
                out.push(2u8);
                push_swap_encoding(out, swap);
            },
            Condition::LimitOrderFilled { owner, pair_address, side, price } => {
                out.push(3u8);
                push_str_encoding(out, owner);
                push_str_encoding(out, pair_address);
                match side {
                    Side::Base => out.push(0u8),
                    Side::Quote => out.push(1u8),
                }
                push_le_u128(out, *price);
            },
            Condition::BalanceAvailable { address, amount } => {
                out.push(4u8);
                push_str_encoding(out, address);
                push_coin_encoding(out, amount);
            },
            Condition::StrategyBalanceAvailable { amount } => {
                out.push(5u8);
                push_coin_encoding(out, amount);
            },
            Condition::StrategyStatus { manager_contract, contract_address, status } => {
                out.push(6u8);
                push_str_encoding(out, manager_contract);
                push_str_encoding(out, contract_address);
                match status {
                    StrategyStatus::Active => out.push(0u8),
                    StrategyStatus::Paused => out.push(1u8),
                    StrategyStatus::Archived => out.push(2u8),
                }
            },
            Condition::OraclePrice { asset, direction, rate } => {
                out.push(7u8);
                push_str_encoding(out, asset);
                match direction {
                    Direction::Above => out.push(0u8),
                    Direction::Below => out.push(1u8),
                }
                push_le_u128(out, *rate);
            },
            Condition::Not(inner) => {
                proof {
                    assert(decreases_to!(*self => self->Not_0));
                }
                out.push(8u8);
                inner.encode_into(out);
            },
            Condition::Composite(cc) => {
                out.push(9u8);
                match cc.threshold {
                    Threshold::All => out.push(0u8),
                    Threshold::Any => out.push(1u8),
                }
                let n = cc.conditions.len();
                push_le_u64(out, n as u64);
                let ghost prefix = out@;
                for i in 0..n
                    invariant
                        n == cc.conditions.len(),
                        self is Composite,
                        cc == self->Composite_0,
                        out@ == prefix + spec_encode_seq(cc.conditions@.take(i as int)),
                    decreases n - i,
                {
                    proof {
                        lemma_encode_seq_take_step(cc.conditions@, i as int);
                        assert(decreases_to!(*self => self->Composite_0));
                        assert(decreases_to!(self->Composite_0 => self->Composite_0.conditions));
                        assert(decreases_to!(self->Composite_0.conditions => self->Composite_0.conditions@));
                        assert(decreases_to!(self->Composite_0.conditions@ => self->Composite_0.conditions@[i as int]));
                    }
                    cc.conditions[i].encode_into(out);
                }
                proof {
                    assert(cc.conditions@.take(n as int) =~= cc.conditions@);
                }
            },
        }
    }

    /// The deterministic 64-bit fingerprint identifying this condition under
    /// an owner: the hash of their canonical serialized form. A pure
    /// function of the pair, so identical pairs always agree.
    pub fn id(&self, owner: &String) -> (r: Result<u64, ContractError>)
        ensures
            r == Ok::<u64, ContractError>(spec_condition_id(owner@, *self)),
    {
        let mut buf: Vec<u8> = Vec::new();
        push_str_encoding(&mut buf, owner);
        self.encode_into(&mut buf);
        Ok(fnv1a_hash(&buf))
    }
}

/// A time gate is satisfied exactly when the current time strictly exceeds
/// its bound; equality is not satisfaction.
pub proof fn lemma_timestamp_elapsed(t: u64, deps: StateSnapshot, env: Env)
    ensures
        spec_eval(Condition::TimestampElapsed(t), deps, env) == Ok::<bool, EvalIssue>(
            env.time > t,
        ),
{
}

/// A height gate is satisfied exactly when the current height strictly
/// exceeds its bound; equality is not satisfaction.
pub proof fn lemma_blocks_completed(h: u64, deps: StateSnapshot, env: Env)
    ensures
        spec_eval(Condition::BlocksCompleted(h), deps, env) == Ok::<bool, EvalIssue>(
            env.height > h,
        ),
{
}

/// A balance gate is satisfied exactly when the reported balance reaches
/// the required amount; the boundary of exact equality is satisfied.
pub proof fn lemma_balance_available(c: Condition, deps: StateSnapshot, env: Env)
    requires
        c is BalanceAvailable,
    ensures
        spec_eval(c, deps, env) == Ok::<bool, EvalIssue>(
            spec_balance_of(deps.balances@, c->address@, c->BalanceAvailable_amount.denom@)
                >= c->BalanceAvailable_amount.amount,
        ),
{
}

/// Negation inverts satisfaction and passes failures through, and double
/// negation restores the original result, whatever the inner condition.
pub proof fn lemma_not(c: Condition, deps: StateSnapshot, env: Env)
    requires
        c is Not,
    ensures
        spec_eval(*c->Not_0, deps, env) matches Ok(b) ==> spec_eval(c, deps, env) == Ok::<
            bool,
            EvalIssue,
        >(!b),
        spec_eval(*c->Not_0, deps, env) matches Err(i) ==> spec_eval(c, deps, env) == Err::<
            bool,
            EvalIssue,
        >(i),
        (*c->Not_0) matches Condition::Not(inner2) ==> spec_eval(c, deps, env) == spec_eval(
            *inner2,
            deps,
            env,
        ),
{
}

/// An `All` composite is satisfied exactly when every child is satisfied,
/// an `Any` composite exactly when at least one is, provided every child
/// evaluates cleanly; this holds for empty, singleton and longer lists.
pub proof fn lemma_composite(c: Condition, deps: StateSnapshot, env: Env)
    requires
        c is Composite,
        forall|j: int|
            0 <= j < c->Composite_0.conditions@.len() ==> spec_eval(
                #[trigger] c->Composite_0.conditions@[j],
                deps,
                env,
            ) is Ok,
    ensures
        c->Composite_0.threshold is All ==> spec_eval(c, deps, env) == Ok::<bool, EvalIssue>(
            forall|j: int|
                0 <= j < c->Composite_0.conditions@.len() ==> spec_eval(
                    #[trigger] c->Composite_0.conditions@[j],
                    deps,
                    env,
                ) == Ok::<bool, EvalIssue>(true),
        ),
        c->Composite_0.threshold is Any ==> spec_eval(c, deps, env) == Ok::<bool, EvalIssue>(
            exists|j: int|
                0 <= j < c->Composite_0.conditions@.len() && spec_eval(
                    #[trigger] c->Composite_0.conditions@[j],
                    deps,
                    env,
                ) == Ok::<bool, EvalIssue>(true),
        ),
{
    lemma_eval_seq_ok(c->Composite_0.conditions@, c->Composite_0.threshold, deps, env);
}

/// A swap gate, when every route simulation is answerable, is satisfied
/// exactly when some route returns, net of fee, at least the minimum
/// receive amount; a net return exactly equal to the minimum satisfies it.
pub proof fn lemma_can_swap(c: Condition, deps: StateSnapshot, env: Env)
    requires
        c is CanSwap,
        spec_first_missing_sim(c->CanSwap_0.routes@, deps) is None,
    ensures
        spec_eval(c, deps, env) == Ok::<bool, EvalIssue>(
            exists|j: int|
                0 <= j < c->CanSwap_0.routes@.len() && spec_route_viable(
                    deps,
                    #[trigger] c->CanSwap_0.routes@[j],
                    c->CanSwap_0.minimum_receive_amount.amount,
                ),
        ),
{
    lemma_best_prefix_char(
        c->CanSwap_0.routes@,
        deps,
        c->CanSwap_0.minimum_receive_amount.amount,
        c->CanSwap_0.routes@.len() as int,
    );
}

/// The boundary of the swap gate is inclusive: a route returning, net of
/// fee, exactly the minimum receive amount makes the swap possible.
pub proof fn lemma_can_swap_boundary(c: Condition, deps: StateSnapshot, env: Env, j: int)
    requires
        c is CanSwap,
        spec_first_missing_sim(c->CanSwap_0.routes@, deps) is None,
        0 <= j < c->CanSwap_0.routes@.len(),
        spec_route_sim(deps, c->CanSwap_0.routes@[j]) matches Some(resp)
            && crate::swap::spec_net_return(resp) == c->CanSwap_0.minimum_receive_amount.amount,
    ensures
        spec_eval(c, deps, env) == Ok::<bool, EvalIssue>(true),
{
    assert(spec_route_viable(
        deps,
        c->CanSwap_0.routes@[j],
        c->CanSwap_0.minimum_receive_amount.amount,
    ));
    lemma_can_swap(c, deps, env);
}

/// An order gate is satisfied exactly when the queried order's remaining
/// amount is zero; an order the snapshot cannot answer is a failure, not a
/// `false`.
pub proof fn lemma_limit_order_filled(c: Condition, deps: StateSnapshot, env: Env)
    requires
        c is LimitOrderFilled,
    ensures
        spec_find_order(deps.orders@, c->pair_address@, c->owner@, c->side, c->price) matches Some(
            o,
        ) ==> spec_eval(c, deps, env) == Ok::<bool, EvalIssue>(o.remaining == 0),
        spec_find_order(deps.orders@, c->pair_address@, c->owner@, c->side, c->price) is None
            ==> spec_eval(c, deps, env) == Err::<bool, EvalIssue>(
            (EvalIssue::OrderNotFound {
                pair_address: c->pair_address@,
                owner: c->owner@,
                side: c->side,
                price: c->price,
            }),
        ),
{
}

/// A status gate is satisfied exactly when the queried handle's status
/// equals the target status; distinct statuses never match.
pub proof fn lemma_strategy_status(c: Condition, deps: StateSnapshot, env: Env)
    requires
        c is StrategyStatus,
    ensures
        spec_find_strategy(deps.strategies@, c->manager_contract@, c->contract_address@) matches
            Some(h) ==> spec_eval(c, deps, env) == Ok::<bool, EvalIssue>(h.status == c->status),
        spec_find_strategy(deps.strategies@, c->manager_contract@, c->contract_address@) is None
            ==> spec_eval(c, deps, env) == Err::<bool, EvalIssue>(
            (EvalIssue::StrategyNotFound {
                manager_contract: c->manager_contract@,
                contract_address: c->contract_address@,
            }),
        ),
{
}

/// Fingerprints are stable: identical owner and condition pairs always
/// yield identical fingerprints.
pub proof fn lemma_id_stable(owner1: Seq<char>, c1: Condition, owner2: Seq<char>, c2: Condition)
    requires
        owner1 == owner2,
        c1 == c2,
    ensures
        spec_condition_id(owner1, c1) == spec_condition_id(owner2, c2),
{
}

/// A negation costs exactly its child.
pub proof fn lemma_size_not(c: Condition)
    requires
        c is Not,
    ensures
        spec_size(c) == spec_size(*c->Not_0),
{
}

/// A composite costs one more than the sum of its children.
pub proof fn lemma_size_composite(c: Condition)
    requires
        c is Composite,
    ensures
        spec_size(c) == 1 + spec_size_seq(c->Composite_0.conditions@),
{
}

} // verus!
