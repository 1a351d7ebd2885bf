use calc_conditions::manager::{Affiliate, StrategyHandle, StrategyStatus};
use calc_conditions::msg::InstantiateStrategyConfig;
use calc_conditions::state::{Coin, Env};
use calc_conditions::types::{
    Condition, Contract, ContractError, CosmosMsg, DcaSchedule, DomainEvent, Executable, Owned,
    Status, StrategyConfig, Trigger,
};

fn mock_env() -> Env {
    Env {
        time: 1_571_797_419_879_305_533,
        height: 12_345,
        contract_address: "cosmos2contract".to_string(),
    }
}

fn trigger(condition: Condition) -> Trigger {
    Trigger {
        id: 7,
        owner: "owner".to_string(),
        condition,
        msg: vec![1, 2, 3],
        to: "target".to_string(),
        execution_rebate: vec![Coin {
            denom: "rune".to_string(),
            amount: 10,
        }],
    }
}

#[test]
fn trigger_can_execute_narrow_conditions() {
    let env = mock_env();

    assert!(trigger(Condition::Timestamp {
        timestamp: env.time + 1,
    })
    .can_execute(&env));
    assert!(!trigger(Condition::Timestamp { timestamp: env.time }).can_execute(&env));

    assert!(trigger(Condition::BlockHeight {
        height: env.height + 1,
    })
    .can_execute(&env));
    assert!(!trigger(Condition::BlockHeight { height: env.height }).can_execute(&env));

    assert!(!trigger(Condition::LimitOrder {
        swap_amount: Coin {
            denom: "rune".to_string(),
            amount: 100,
        },
        minimum_receive_amount: Coin {
            denom: "rune".to_string(),
            amount: 90,
        },
    })
    .can_execute(&env));
}

#[test]
fn trigger_execute_builds_one_message() {
    let env = mock_env();
    let t = trigger(Condition::BlockHeight {
        height: env.height + 1,
    });

    let response = t.execute(&env).unwrap();
    assert_eq!(response.messages.len(), 1);
    match &response.messages[0] {
        CosmosMsg::WasmExecute {
            contract_addr,
            msg,
            funds,
        } => {
            assert_eq!(contract_addr, "target");
            assert_eq!(msg, &vec![1, 2, 3]);
            assert!(funds.is_empty());
        }
    }
}

#[test]
fn trigger_execute_unmet_condition_fails() {
    let env = mock_env();
    let t = trigger(Condition::BlockHeight { height: env.height });

    match t.execute(&env) {
        Err(ContractError::ConditionNotMet(Condition::BlockHeight { height })) => {
            assert_eq!(height, env.height)
        }
        other => panic!("expected a condition-not-met error, got {:?}", other),
    }
}

#[test]
fn trigger_execute_limit_order_not_implemented() {
    let env = mock_env();
    let t = trigger(Condition::LimitOrder {
        swap_amount: Coin {
            denom: "rune".to_string(),
            amount: 100,
        },
        minimum_receive_amount: Coin {
            denom: "rune".to_string(),
            amount: 90,
        },
    });

    // Unimplemented regardless of state, and distinguishable from an unmet
    // condition.
    assert!(matches!(t.execute(&env), Err(ContractError::NotImplemented)));
}

#[test]
fn status_transition_table() {
    assert!(StrategyStatus::Active.can_transition_to(StrategyStatus::Paused));
    assert!(StrategyStatus::Active.can_transition_to(StrategyStatus::Archived));
    assert!(!StrategyStatus::Active.can_transition_to(StrategyStatus::Active));

    assert!(StrategyStatus::Paused.can_transition_to(StrategyStatus::Active));
    assert!(StrategyStatus::Paused.can_transition_to(StrategyStatus::Archived));
    assert!(!StrategyStatus::Paused.can_transition_to(StrategyStatus::Paused));

    assert!(!StrategyStatus::Archived.can_transition_to(StrategyStatus::Active));
    assert!(!StrategyStatus::Archived.can_transition_to(StrategyStatus::Paused));
    assert!(!StrategyStatus::Archived.can_transition_to(StrategyStatus::Archived));
}

#[test]
fn record_status_transition_table() {
    assert!(Status::Active.can_transition_to(Status::Paused));
    assert!(Status::Paused.can_transition_to(Status::Active));
    assert!(Status::Active.can_transition_to(Status::Archived));
    assert!(Status::Paused.can_transition_to(Status::Archived));
    assert!(!Status::Archived.can_transition_to(Status::Active));
    assert!(!Status::Archived.can_transition_to(Status::Paused));
}

#[test]
fn handle_update_status_applies_permitted_moves() {
    let mut handle = StrategyHandle {
        id: 1,
        owner: "owner".to_string(),
        contract_address: "strategy".to_string(),
        created_at: 5,
        updated_at: 5,
        label: "label".to_string(),
        status: StrategyStatus::Active,
        affiliates: Vec::<Affiliate>::new(),
    };

    handle.update_status(StrategyStatus::Paused, 6).unwrap();
    assert!(matches!(handle.status, StrategyStatus::Paused));
    assert_eq!(handle.updated_at, 6);

    handle.update_status(StrategyStatus::Active, 7).unwrap();
    assert!(matches!(handle.status, StrategyStatus::Active));

    handle.update_status(StrategyStatus::Archived, 8).unwrap();
    assert!(matches!(handle.status, StrategyStatus::Archived));
    assert_eq!(handle.updated_at, 8);
}

#[test]
fn handle_update_status_rejects_leaving_archived() {
    let mut handle = StrategyHandle {
        id: 1,
        owner: "owner".to_string(),
        contract_address: "strategy".to_string(),
        created_at: 5,
        updated_at: 9,
        label: "label".to_string(),
        status: StrategyStatus::Archived,
        affiliates: Vec::<Affiliate>::new(),
    };

    match handle.update_status(StrategyStatus::Active, 10) {
        Err(ContractError::InvalidStatusTransition { from, to }) => {
            assert!(matches!(from, StrategyStatus::Archived));
            assert!(matches!(to, StrategyStatus::Active));
        }
        other => panic!("expected an invalid-transition error, got {:?}", other),
    }
    assert!(matches!(handle.status, StrategyStatus::Archived));
    assert_eq!(handle.updated_at, 9);

    assert!(handle.update_status(StrategyStatus::Paused, 11).is_err());
    assert!(matches!(handle.status, StrategyStatus::Archived));
}

#[test]
fn generic_err_wraps_message() {
    match ContractError::generic_err("boom".to_string()) {
        ContractError::Generic(msg) => assert_eq!(msg, "boom"),
        other => panic!("expected a generic error, got {:?}", other),
    }
}

#[test]
fn contract_builds_calls() {
    let contract = Contract("target".to_string());
    assert_eq!(contract.addr(), "target");

    let funds = vec![Coin {
        denom: "rune".to_string(),
        amount: 4,
    }];
    match contract.call(vec![9, 9], funds).unwrap() {
        CosmosMsg::WasmExecute {
            contract_addr,
            msg,
            funds,
        } => {
            assert_eq!(contract_addr, "target");
            assert_eq!(msg, vec![9, 9]);
            assert_eq!(funds.len(), 1);
            assert_eq!(funds[0].denom, "rune");
            assert_eq!(funds[0].amount, 4);
        }
    }
}

#[test]
fn strategy_config_from_instantiate() {
    let dca = InstantiateStrategyConfig::Dca {
        owner: "alice".to_string(),
        swap_amount: Coin {
            denom: "rune".to_string(),
            amount: 100,
        },
        minimum_receive_amount: Coin {
            denom: "uusd".to_string(),
            amount: 90,
        },
        schedule: DcaSchedule::Blocks {
            interval: 10,
            previous: None,
        },
        exchange_contract: "exchange".to_string(),
        scheduler_contract: "scheduler".to_string(),
        execution_rebate: Coin {
            denom: "rune".to_string(),
            amount: 1,
        },
        affiliate_code: None,
        mutable_destinations: vec![],
        immutable_destinations: vec![],
    };

    let config = StrategyConfig::from(dca);
    assert_eq!(config.owner(), "alice");
    match &config {
        StrategyConfig::Dca(d) => {
            assert_eq!(d.statistics.amount_deposited.denom, "uusd");
            assert_eq!(d.statistics.amount_deposited.amount, 0);
            assert_eq!(d.statistics.amount_swapped.amount, 0);
            assert_eq!(d.statistics.amount_received.amount, 0);
            assert_eq!(d.swap_amount.amount, 100);
        }
        other => panic!("expected a dollar-cost-averaging config, got {:?}", other),
    }

    let custom = StrategyConfig::from(InstantiateStrategyConfig::Custom {});
    assert_eq!(custom.owner(), "custom_strategy_owner");
}

#[test]
fn event_types_are_stable() {
    let addr = || "strategy".to_string();

    assert_eq!(
        DomainEvent::StrategyInstantiated {
            contract_address: addr(),
            config: StrategyConfig::from(InstantiateStrategyConfig::Custom {}),
        }
        .event_type(),
        "strategy_created"
    );
    assert_eq!(
        DomainEvent::StrategyPaused {
            contract_address: addr(),
            reason: "why".to_string(),
        }
        .event_type(),
        "strategy_paused"
    );
    assert_eq!(
        DomainEvent::StrategyArchived {
            contract_address: addr(),
        }
        .event_type(),
        "strategy_archived"
    );
    assert_eq!(
        DomainEvent::StrategyResumed {
            contract_address: addr(),
        }
        .event_type(),
        "strategy_resumed"
    );
    assert_eq!(
        DomainEvent::FundsDeposited {
            contract_address: addr(),
            from: "alice".to_string(),
            funds: vec![],
        }
        .event_type(),
        "funds_deposited"
    );
    assert_eq!(
        DomainEvent::SchedulingSkipped {
            contract_address: addr(),
            reason: "dormant".to_string(),
        }
        .event_type(),
        "scheduling_skipped"
    );
}

#[test]
fn status_key_bytes_follow_declaration_order() {
    assert_eq!(StrategyStatus::Active.key_byte(), 0);
    assert_eq!(StrategyStatus::Paused.key_byte(), 1);
    assert_eq!(StrategyStatus::Archived.key_byte(), 2);

    assert_eq!(Status::Active.key_byte(), 0);
    assert_eq!(Status::Paused.key_byte(), 1);
    assert_eq!(Status::Archived.key_byte(), 2);
}
