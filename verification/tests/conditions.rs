use calc_conditions::conditions::{CompositeCondition, Condition, Direction, Threshold};
use calc_conditions::manager::{Affiliate, StrategyHandle, StrategyStatus};
use calc_conditions::state::{
    BalanceEntry, Coin, Env, OrderEntry, OrderResponse, PriceEntry, Side, SimulationEntry,
    SimulationResponse, StateSnapshot, StrategyEntry,
};
use calc_conditions::swap::{FinRoute, Swap, SwapAmountAdjustment, SwapRoute};
use calc_conditions::types::{ContractError, QueryFailure};

const MOCK_TIME: u64 = 1_571_797_419_879_305_533;
const MOCK_HEIGHT: u64 = 12_345;
const ONE_SECOND: u64 = 1_000_000_000;
const ONE: u128 = 1_000_000_000_000_000_000;

fn mock_env() -> Env {
    Env {
        time: MOCK_TIME,
        height: MOCK_HEIGHT,
        contract_address: "cosmos2contract".to_string(),
    }
}

fn empty_snapshot() -> StateSnapshot {
    StateSnapshot {
        balances: vec![],
        orders: vec![],
        strategies: vec![],
        prices: vec![],
        simulations: vec![],
    }
}

fn coin(amount: u128, denom: &str) -> Coin {
    Coin {
        denom: denom.to_string(),
        amount,
    }
}

fn fin_swap(swap_amount: u128, minimum: u128) -> Swap {
    Swap {
        swap_amount: coin(swap_amount, "rune"),
        minimum_receive_amount: coin(minimum, "rune"),
        routes: vec![SwapRoute::Fin(FinRoute {
            pair_address: "fin_pair".to_string(),
        })],
        maximum_slippage_bps: 100,
        adjustment: SwapAmountAdjustment::Fixed,
    }
}

#[test]
fn timestamp_elapsed_check() {
    let deps = empty_snapshot();
    let env = mock_env();

    assert!(Condition::TimestampElapsed(env.time - ONE_SECOND)
        .is_satisfied(&deps, &env)
        .unwrap());

    assert!(!Condition::TimestampElapsed(env.time)
        .is_satisfied(&deps, &env)
        .unwrap());

    assert!(!Condition::TimestampElapsed(env.time + ONE_SECOND)
        .is_satisfied(&deps, &env)
        .unwrap());
}

#[test]
fn blocks_completed_check() {
    let deps = empty_snapshot();
    let env = mock_env();

    assert!(Condition::BlocksCompleted(0).is_satisfied(&deps, &env).unwrap());
    assert!(Condition::BlocksCompleted(env.height - 1)
        .is_satisfied(&deps, &env)
        .unwrap());
    assert!(!Condition::BlocksCompleted(env.height)
        .is_satisfied(&deps, &env)
        .unwrap());
    assert!(!Condition::BlocksCompleted(env.height + 1)
        .is_satisfied(&deps, &env)
        .unwrap());
}

#[test]
fn balance_available_check() {
    let mut deps = empty_snapshot();
    let env = mock_env();

    assert!(Condition::BalanceAvailable {
        address: env.contract_address.clone(),
        amount: coin(0, "rune"),
    }
    .is_satisfied(&deps, &env)
    .unwrap());

    assert!(!Condition::BalanceAvailable {
        address: env.contract_address.clone(),
        amount: coin(1, "rune"),
    }
    .is_satisfied(&deps, &env)
    .unwrap());

    deps.balances = vec![BalanceEntry {
        address: env.contract_address.clone(),
        denom: "rune".to_string(),
        amount: 100,
    }];

    assert!(Condition::BalanceAvailable {
        address: env.contract_address.clone(),
        amount: coin(99, "rune"),
    }
    .is_satisfied(&deps, &env)
    .unwrap());

    assert!(Condition::BalanceAvailable {
        address: env.contract_address.clone(),
        amount: coin(100, "rune"),
    }
    .is_satisfied(&deps, &env)
    .unwrap());

    assert!(!Condition::BalanceAvailable {
        address: env.contract_address.clone(),
        amount: coin(101, "rune"),
    }
    .is_satisfied(&deps, &env)
    .unwrap());
}

#[test]
fn can_swap_check() {
    let mut deps = empty_snapshot();
    let env = mock_env();

    deps.simulations = vec![SimulationEntry {
        pair_address: "fin_pair".to_string(),
        response: SimulationResponse {
            returned: 100,
            fee: 1,
        },
    }];

    assert!(!Condition::CanSwap(fin_swap(100, 101))
        .is_satisfied(&deps, &env)
        .unwrap());

    assert!(!Condition::CanSwap(fin_swap(100, 100))
        .is_satisfied(&deps, &env)
        .unwrap());

    // The simulated net return (100 - 1 = 99) meets the minimum exactly:
    // the boundary is inclusive, so the swap is possible.
    assert!(Condition::CanSwap(fin_swap(100, 99))
        .is_satisfied(&deps, &env)
        .unwrap());
}

#[test]
fn limit_order_filled_check() {
    let mut deps = empty_snapshot();
    let env = mock_env();

    let order = |remaining: u128| OrderEntry {
        pair_address: "pair".to_string(),
        owner: "owner".to_string(),
        side: Side::Base,
        price: ONE,
        order: OrderResponse {
            remaining,
            filled: 100,
            owner: "owner".to_string(),
            side: Side::Base,
            price: ONE,
            rate: ONE,
            updated_at: MOCK_TIME,
            offer: 21_029,
        },
    };

    deps.orders = vec![order(100)];

    assert!(!Condition::LimitOrderFilled {
        owner: "owner".to_string(),
        pair_address: "pair".to_string(),
        side: Side::Base,
        price: ONE,
    }
    .is_satisfied(&deps, &env)
    .unwrap());

    deps.orders = vec![order(0)];

    assert!(Condition::LimitOrderFilled {
        owner: "owner".to_string(),
        pair_address: "pair".to_string(),
        side: Side::Base,
        price: ONE,
    }
    .is_satisfied(&deps, &env)
    .unwrap());
}

#[test]
fn strategy_status_check() {
    let mut deps = empty_snapshot();
    let env = mock_env();

    deps.strategies = vec![StrategyEntry {
        manager_contract: "manager".to_string(),
        contract_address: "strategy".to_string(),
        handle: StrategyHandle {
            id: 1,
            contract_address: "strategy".to_string(),
            status: StrategyStatus::Active,
            owner: "owner".to_string(),
            created_at: 0,
            updated_at: 0,
            label: "label".to_string(),
            affiliates: Vec::<Affiliate>::new(),
        },
    }];

    assert!(Condition::StrategyStatus {
        manager_contract: "manager".to_string(),
        contract_address: "strategy".to_string(),
        status: StrategyStatus::Active,
    }
    .is_satisfied(&deps, &env)
    .unwrap());

    assert!(!Condition::StrategyStatus {
        manager_contract: "manager".to_string(),
        contract_address: "strategy".to_string(),
        status: StrategyStatus::Paused,
    }
    .is_satisfied(&deps, &env)
    .unwrap());
}

#[test]
fn not_satisfied_check() {
    let deps = empty_snapshot();
    let env = mock_env();

    assert!(
        !Condition::Not(Box::new(Condition::BlocksCompleted(env.height - 1)))
            .is_satisfied(&deps, &env)
            .unwrap()
    );
    assert!(Condition::Not(Box::new(Condition::BlocksCompleted(env.height)))
        .is_satisfied(&deps, &env)
        .unwrap());
}

#[test]
fn composite_condition_check() {
    let deps = empty_snapshot();
    let env = mock_env();

    assert!(!Condition::Composite(CompositeCondition {
        conditions: vec![
            Condition::BlocksCompleted(env.height - 1),
            Condition::BlocksCompleted(env.height),
        ],
        threshold: Threshold::All,
    })
    .is_satisfied(&deps, &env)
    .unwrap());

    assert!(Condition::Composite(CompositeCondition {
        conditions: vec![
            Condition::BlocksCompleted(env.height - 1),
            Condition::BlocksCompleted(env.height),
        ],
        threshold: Threshold::Any,
    })
    .is_satisfied(&deps, &env)
    .unwrap());
}

#[test]
fn composite_empty_and_singleton() {
    let deps = empty_snapshot();
    let env = mock_env();

    assert!(Condition::Composite(CompositeCondition {
        conditions: vec![],
        threshold: Threshold::All,
    })
    .is_satisfied(&deps, &env)
    .unwrap());

    assert!(!Condition::Composite(CompositeCondition {
        conditions: vec![],
        threshold: Threshold::Any,
    })
    .is_satisfied(&deps, &env)
    .unwrap());

    assert!(Condition::Composite(CompositeCondition {
        conditions: vec![Condition::BlocksCompleted(0)],
        threshold: Threshold::All,
    })
    .is_satisfied(&deps, &env)
    .unwrap());

    assert!(Condition::Composite(CompositeCondition {
        conditions: vec![Condition::BlocksCompleted(0)],
        threshold: Threshold::Any,
    })
    .is_satisfied(&deps, &env)
    .unwrap());
}

#[test]
fn double_negation_restores_result() {
    let deps = empty_snapshot();
    let env = mock_env();

    let inner = Condition::BlocksCompleted(env.height - 1);
    assert!(inner.is_satisfied(&deps, &env).unwrap());
    let twice = Condition::Not(Box::new(Condition::Not(Box::new(
        Condition::BlocksCompleted(env.height - 1),
    ))));
    assert!(twice.is_satisfied(&deps, &env).unwrap());

    let unmet_twice = Condition::Not(Box::new(Condition::Not(Box::new(
        Condition::BlocksCompleted(env.height),
    ))));
    assert!(!unmet_twice.is_satisfied(&deps, &env).unwrap());
}

#[test]
fn oracle_price_resolves_denom() {
    let mut deps = empty_snapshot();
    let env = mock_env();

    // The price table is keyed by the resolved layer-1 identifier, not the
    // native denomination; "rune" must resolve to THOR.RUNE to find it.
    deps.prices = vec![PriceEntry {
        asset: "THOR.RUNE".to_string(),
        price: 5 * ONE,
    }];

    assert!(Condition::OraclePrice {
        asset: "rune".to_string(),
        direction: Direction::Above,
        rate: 4 * ONE,
    }
    .is_satisfied(&deps, &env)
    .unwrap());

    assert!(!Condition::OraclePrice {
        asset: "rune".to_string(),
        direction: Direction::Above,
        rate: 5 * ONE,
    }
    .is_satisfied(&deps, &env)
    .unwrap());

    assert!(Condition::OraclePrice {
        asset: "rune".to_string(),
        direction: Direction::Below,
        rate: 6 * ONE,
    }
    .is_satisfied(&deps, &env)
    .unwrap());

    // The thor.<symbol> form resolves with the symbol uppercased.
    deps.prices = vec![PriceEntry {
        asset: "THOR.ETH".to_string(),
        price: 2 * ONE,
    }];

    assert!(Condition::OraclePrice {
        asset: "thor.eth".to_string(),
        direction: Direction::Above,
        rate: ONE,
    }
    .is_satisfied(&deps, &env)
    .unwrap());
}

#[test]
fn oracle_price_unresolvable_denom_is_error() {
    let deps = empty_snapshot();
    let env = mock_env();

    let result = Condition::OraclePrice {
        asset: "uusd".to_string(),
        direction: Direction::Above,
        rate: ONE,
    }
    .is_satisfied(&deps, &env);

    match result {
        Err(ContractError::UnresolvableAsset { denom, .. }) => assert_eq!(denom, "uusd"),
        other => panic!("expected an unresolvable-asset error, got {:?}", other),
    }
}

#[test]
fn missing_price_is_query_failure() {
    let deps = empty_snapshot();
    let env = mock_env();

    let result = Condition::OraclePrice {
        asset: "rune".to_string(),
        direction: Direction::Above,
        rate: ONE,
    }
    .is_satisfied(&deps, &env);

    match result {
        Err(ContractError::StateQueryFailure(QueryFailure::OraclePrice { asset })) => {
            assert_eq!(asset, "rune")
        }
        other => panic!("expected an oracle query failure, got {:?}", other),
    }
}

#[test]
fn missing_order_is_query_failure() {
    let deps = empty_snapshot();
    let env = mock_env();

    let result = Condition::LimitOrderFilled {
        owner: "owner".to_string(),
        pair_address: "pair".to_string(),
        side: Side::Quote,
        price: ONE,
    }
    .is_satisfied(&deps, &env);

    match result {
        Err(ContractError::StateQueryFailure(QueryFailure::Order {
            pair_address,
            owner,
            side,
            price,
        })) => {
            assert_eq!(pair_address, "pair");
            assert_eq!(owner, "owner");
            assert!(matches!(side, Side::Quote));
            assert_eq!(price, ONE);
        }
        other => panic!("expected an order query failure, got {:?}", other),
    }
}

#[test]
fn missing_strategy_is_query_failure() {
    let deps = empty_snapshot();
    let env = mock_env();

    let result = Condition::StrategyStatus {
        manager_contract: "manager".to_string(),
        contract_address: "strategy".to_string(),
        status: StrategyStatus::Archived,
    }
    .is_satisfied(&deps, &env);

    match result {
        Err(ContractError::StateQueryFailure(QueryFailure::Strategy {
            manager_contract,
            contract_address,
        })) => {
            assert_eq!(manager_contract, "manager");
            assert_eq!(contract_address, "strategy");
        }
        other => panic!("expected a strategy query failure, got {:?}", other),
    }
}

#[test]
fn missing_simulation_is_query_failure() {
    let deps = empty_snapshot();
    let env = mock_env();

    let result = Condition::CanSwap(fin_swap(100, 99)).is_satisfied(&deps, &env);

    match result {
        Err(ContractError::StateQueryFailure(QueryFailure::Simulation { pair_address })) => {
            assert_eq!(pair_address, "fin_pair")
        }
        other => panic!("expected a simulation query failure, got {:?}", other),
    }
}

#[test]
fn query_failure_propagates_through_composite() {
    let mut deps = empty_snapshot();
    let env = mock_env();

    deps.simulations = vec![SimulationEntry {
        pair_address: "fin_pair".to_string(),
        response: SimulationResponse {
            returned: 1_000,
            fee: 0,
        },
    }];

    // The unmet first child must not short-circuit `All`: the failing
    // second child still turns the whole evaluation into an error.
    let tree = Condition::Composite(CompositeCondition {
        conditions: vec![
            Condition::BlocksCompleted(MOCK_HEIGHT),
            Condition::LimitOrderFilled {
                owner: "owner".to_string(),
                pair_address: "pair".to_string(),
                side: Side::Base,
                price: ONE,
            },
        ],
        threshold: Threshold::All,
    });

    assert!(matches!(
        tree.is_satisfied(&deps, &env),
        Err(ContractError::StateQueryFailure(QueryFailure::Order { .. }))
    ));
}

#[test]
fn best_route_prefers_higher_net_return() {
    let mut deps = empty_snapshot();
    let env = mock_env();

    deps.simulations = vec![
        SimulationEntry {
            pair_address: "pair_a".to_string(),
            response: SimulationResponse {
                returned: 100,
                fee: 10,
            },
        },
        SimulationEntry {
            pair_address: "pair_b".to_string(),
            response: SimulationResponse {
                returned: 100,
                fee: 1,
            },
        },
    ];

    let swap = Swap {
        swap_amount: coin(100, "rune"),
        minimum_receive_amount: coin(50, "rune"),
        routes: vec![
            SwapRoute::Fin(FinRoute {
                pair_address: "pair_a".to_string(),
            }),
            SwapRoute::Fin(FinRoute {
                pair_address: "pair_b".to_string(),
            }),
        ],
        maximum_slippage_bps: 100,
        adjustment: SwapAmountAdjustment::Fixed,
    };

    match swap.best_route(&deps, &env).unwrap() {
        Some(SwapRoute::Fin(f)) => assert_eq!(f.pair_address, "pair_b"),
        None => panic!("expected a viable route"),
    }
}

#[test]
fn best_route_breaks_ties_by_listing_order() {
    let mut deps = empty_snapshot();
    let env = mock_env();

    deps.simulations = vec![
        SimulationEntry {
            pair_address: "pair_a".to_string(),
            response: SimulationResponse {
                returned: 99,
                fee: 0,
            },
        },
        SimulationEntry {
            pair_address: "pair_b".to_string(),
            response: SimulationResponse {
                returned: 100,
                fee: 1,
            },
        },
    ];

    let swap = Swap {
        swap_amount: coin(100, "rune"),
        minimum_receive_amount: coin(50, "rune"),
        routes: vec![
            SwapRoute::Fin(FinRoute {
                pair_address: "pair_a".to_string(),
            }),
            SwapRoute::Fin(FinRoute {
                pair_address: "pair_b".to_string(),
            }),
        ],
        maximum_slippage_bps: 100,
        adjustment: SwapAmountAdjustment::Fixed,
    };

    match swap.best_route(&deps, &env).unwrap() {
        Some(SwapRoute::Fin(f)) => assert_eq!(f.pair_address, "pair_a"),
        None => panic!("expected a viable route"),
    }
}

#[test]
fn strategy_balance_uses_own_contract_address() {
    let mut deps = empty_snapshot();
    let env = mock_env();

    deps.balances = vec![
        BalanceEntry {
            address: "someone_else".to_string(),
            denom: "rune".to_string(),
            amount: 1_000,
        },
        BalanceEntry {
            address: env.contract_address.clone(),
            denom: "rune".to_string(),
            amount: 5,
        },
    ];

    assert!(Condition::StrategyBalanceAvailable {
        amount: coin(5, "rune"),
    }
    .is_satisfied(&deps, &env)
    .unwrap());

    assert!(!Condition::StrategyBalanceAvailable {
        amount: coin(6, "rune"),
    }
    .is_satisfied(&deps, &env)
    .unwrap());
}

#[test]
fn size_weights_per_variant() {
    assert_eq!(Condition::TimestampElapsed(1).size(), 1);
    assert_eq!(Condition::BlocksCompleted(1).size(), 1);
    assert_eq!(Condition::CanSwap(fin_swap(1, 1)).size(), 2);
    assert_eq!(
        Condition::LimitOrderFilled {
            owner: "owner".to_string(),
            pair_address: "pair".to_string(),
            side: Side::Base,
            price: ONE,
        }
        .size(),
        2
    );
    assert_eq!(
        Condition::BalanceAvailable {
            address: "addr".to_string(),
            amount: coin(1, "rune"),
        }
        .size(),
        1
    );
    assert_eq!(
        Condition::StrategyBalanceAvailable {
            amount: coin(1, "rune"),
        }
        .size(),
        1
    );
    assert_eq!(
        Condition::StrategyStatus {
            manager_contract: "manager".to_string(),
            contract_address: "strategy".to_string(),
            status: StrategyStatus::Active,
        }
        .size(),
        2
    );
    assert_eq!(
        Condition::OraclePrice {
            asset: "rune".to_string(),
            direction: Direction::Above,
            rate: ONE,
        }
        .size(),
        2
    );
}

#[test]
fn size_is_additive_and_not_is_passthrough() {
    let composite = Condition::Composite(CompositeCondition {
        conditions: vec![
            Condition::TimestampElapsed(1),
            Condition::CanSwap(fin_swap(1, 1)),
            Condition::Not(Box::new(Condition::BlocksCompleted(1))),
        ],
        threshold: Threshold::Any,
    });
    assert_eq!(composite.size(), 1 + 1 + 2 + 1);

    let wrapped = Condition::Not(Box::new(composite));
    assert_eq!(wrapped.size(), 5);

    let empty = Condition::Composite(CompositeCondition {
        conditions: vec![],
        threshold: Threshold::All,
    });
    assert_eq!(empty.size(), 1);
}
