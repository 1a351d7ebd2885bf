use calc_conditions::conditions::{CompositeCondition, Condition, Threshold};
use calc_conditions::manager::StrategyStatus;
use calc_conditions::state::Coin;

fn balance_condition(address: &str, amount: u128, denom: &str) -> Condition {
    Condition::BalanceAvailable {
        address: address.to_string(),
        amount: Coin {
            denom: denom.to_string(),
            amount,
        },
    }
}

#[test]
fn id_is_stable_across_calls() {
    let owner = "owner".to_string();
    let first = balance_condition("addr", 100, "rune").id(&owner).unwrap();
    let second = balance_condition("addr", 100, "rune").id(&owner).unwrap();
    assert_eq!(first, second);
}

#[test]
fn id_changes_with_any_field() {
    let owner = "owner".to_string();
    let base = balance_condition("addr", 100, "rune").id(&owner).unwrap();

    assert_ne!(
        base,
        balance_condition("addr2", 100, "rune").id(&owner).unwrap()
    );
    assert_ne!(
        base,
        balance_condition("addr", 101, "rune").id(&owner).unwrap()
    );
    assert_ne!(
        base,
        balance_condition("addr", 100, "uusd").id(&owner).unwrap()
    );
}

#[test]
fn id_changes_with_owner() {
    let condition = balance_condition("addr", 100, "rune");
    let one = condition.id(&"owner_a".to_string()).unwrap();
    let two = condition.id(&"owner_b".to_string()).unwrap();
    assert_ne!(one, two);
}

#[test]
fn id_distinguishes_variants_and_structure() {
    let owner = "owner".to_string();

    let timestamp = Condition::TimestampElapsed(5).id(&owner).unwrap();
    let height = Condition::BlocksCompleted(5).id(&owner).unwrap();
    assert_ne!(timestamp, height);

    let plain = Condition::BlocksCompleted(5).id(&owner).unwrap();
    let negated = Condition::Not(Box::new(Condition::BlocksCompleted(5)))
        .id(&owner)
        .unwrap();
    assert_ne!(plain, negated);

    let all = Condition::Composite(CompositeCondition {
        conditions: vec![Condition::BlocksCompleted(5)],
        threshold: Threshold::All,
    })
    .id(&owner)
    .unwrap();
    let any = Condition::Composite(CompositeCondition {
        conditions: vec![Condition::BlocksCompleted(5)],
        threshold: Threshold::Any,
    })
    .id(&owner)
    .unwrap();
    assert_ne!(all, any);

    let active = Condition::StrategyStatus {
        manager_contract: "manager".to_string(),
        contract_address: "strategy".to_string(),
        status: StrategyStatus::Active,
    }
    .id(&owner)
    .unwrap();
    let paused = Condition::StrategyStatus {
        manager_contract: "manager".to_string(),
        contract_address: "strategy".to_string(),
        status: StrategyStatus::Paused,
    }
    .id(&owner)
    .unwrap();
    assert_ne!(active, paused);
}
