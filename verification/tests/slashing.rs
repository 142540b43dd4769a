use price_oracle::ledger::{Deployment, Ledger};
use price_oracle::types::{Action, LiquidityEvent};
use price_oracle::validation::{
    calculate_liquidity_slash_multiplier, plan_low_liquidity_slash,
    set_liquidity_threshold_internal, slash_for_low_liquidity, SlashOrder,
    LOW_LIQUIDITY_SLASH_MULTIPLIER,
};
use price_oracle::{Address, ContractError, Symbol};
use soroban_sdk::Env;

fn address(mark: u8) -> Address {
    Address::new(&[mark; 56]).unwrap()
}

fn ledger() -> Ledger {
    let deployment = Deployment { contract: address(b'C'), min_unbonding_delay_ledgers: 120 };
    Ledger::new(&Env::default(), deployment, 1_000)
}

fn xlm_usd() -> Symbol {
    Symbol::new(b"XLM_USD").unwrap()
}

#[test]
fn test_liquidity_slash_multiplier() {
    // At 100% of the threshold there is no penalty.
    assert_eq!(calculate_liquidity_slash_multiplier(100, 100), 1);

    // At 80% the penalty is minor.
    assert_eq!(calculate_liquidity_slash_multiplier(80, 100), 2);

    // At 60% the penalty is moderate.
    assert_eq!(calculate_liquidity_slash_multiplier(60, 100), 4);

    // At 40% the penalty is significant.
    assert_eq!(calculate_liquidity_slash_multiplier(40, 100), 8);

    // At 20% the penalty is severe.
    assert_eq!(calculate_liquidity_slash_multiplier(20, 100), 16);

    // The lower bound of a tier belongs to it.
    assert_eq!(calculate_liquidity_slash_multiplier(75, 100), 2);
    assert_eq!(calculate_liquidity_slash_multiplier(50, 100), 4);
    assert_eq!(calculate_liquidity_slash_multiplier(25, 100), 8);
}

#[test]
fn test_zero_threshold_handling() {
    // A zero threshold does not lead to a division by zero.
    assert_eq!(calculate_liquidity_slash_multiplier(100, 0), 1);
}

#[test]
fn tiers_end_just_below_their_bounds() {
    assert_eq!(calculate_liquidity_slash_multiplier(99_999_999, 100_000_000), 2);
    assert_eq!(calculate_liquidity_slash_multiplier(74_999_999, 100_000_000), 4);
    assert_eq!(calculate_liquidity_slash_multiplier(49_999_999, 100_000_000), 8);
    assert_eq!(calculate_liquidity_slash_multiplier(24_999_999, 100_000_000), 16);
    assert_eq!(calculate_liquidity_slash_multiplier(0, 100_000_000), 16);
    assert_eq!(calculate_liquidity_slash_multiplier(i128::MAX / 10_000, 1), 1);
}

#[test]
fn negative_values_are_compared_as_shares() {
    assert_eq!(calculate_liquidity_slash_multiplier(-80, 100), 16);
    assert_eq!(calculate_liquidity_slash_multiplier(80, -100), 16);
    assert_eq!(calculate_liquidity_slash_multiplier(-80, -100), 2);
    assert_eq!(calculate_liquidity_slash_multiplier(-100, -100), 1);
    assert_eq!(calculate_liquidity_slash_multiplier(i128::MIN / 10_000, -1), 1);
}

#[test]
fn less_liquidity_never_costs_less() {
    let mut last = 16;
    for reported in 0..=200 {
        let multiplier = calculate_liquidity_slash_multiplier(reported, 100);
        assert!(multiplier <= last);
        last = multiplier;
    }
    assert_eq!(last, 1);
}

#[test]
fn penalty_is_the_scaled_base_amount() {
    let mut ledger = ledger();
    set_liquidity_threshold_internal(&mut ledger, &xlm_usd(), 100_000_000).unwrap();
    let order = plan_low_liquidity_slash(
        &ledger,
        &address(b'A'),
        &address(b'P'),
        &xlm_usd(),
        40_000_000,
        1_000,
    );
    assert_eq!(
        order,
        Ok(SlashOrder {
            executor: address(b'A'),
            provider: address(b'P'),
            threshold: 100_000_000,
            multiplier: 8,
            amount: 8_000,
        })
    );
}

#[test]
fn executed_slash_is_announced() {
    let mut ledger = ledger();
    set_liquidity_threshold_internal(&mut ledger, &xlm_usd(), 100_000_000).unwrap();
    ledger.take_actions();
    let result = slash_for_low_liquidity(
        &mut ledger,
        &address(b'A'),
        &address(b'P'),
        &xlm_usd(),
        60_000_000,
        1_000,
        true,
    );
    assert_eq!(result, Ok(()));
    let event = LiquidityEvent::SlashExecuted {
        provider: address(b'P'),
        asset: xlm_usd(),
        reported_liquidity: 60_000_000,
        threshold: 100_000_000,
        multiplier: 4,
        amount: 4_000,
    };
    assert_eq!(ledger.take_actions(), vec![Action::Publish(event)]);
    assert_eq!(event.topic(), "liquidity_slash_executed");
}

#[test]
fn slash_that_the_engine_refuses_is_an_insufficient_stake() {
    let mut ledger = ledger();
    set_liquidity_threshold_internal(&mut ledger, &xlm_usd(), 100_000_000).unwrap();
    ledger.take_actions();
    let result = slash_for_low_liquidity(
        &mut ledger,
        &address(b'A'),
        &address(b'P'),
        &xlm_usd(),
        60_000_000,
        1_000,
        false,
    );
    assert_eq!(result, Err(ContractError::InsufficientStake));
    assert!(ledger.take_actions().is_empty());
}

#[test]
fn slash_needs_a_threshold() {
    let mut ledger = ledger();
    for executed in [false, true] {
        let result = slash_for_low_liquidity(
            &mut ledger,
            &address(b'A'),
            &address(b'P'),
            &xlm_usd(),
            60_000_000,
            1_000,
            executed,
        );
        assert_eq!(result, Err(ContractError::InvalidLiquidityThreshold));
    }
    assert!(ledger.take_actions().is_empty());
}

#[test]
fn slash_amount_must_be_representable() {
    let mut ledger = ledger();
    set_liquidity_threshold_internal(&mut ledger, &xlm_usd(), 100_000_000).unwrap();
    ledger.take_actions();
    let result = slash_for_low_liquidity(
        &mut ledger,
        &address(b'A'),
        &address(b'P'),
        &xlm_usd(),
        80_000_000,
        i128::MAX / 2 + 1,
        true,
    );
    assert_eq!(result, Err(ContractError::InvalidSlashAmount));
    let result = slash_for_low_liquidity(
        &mut ledger,
        &address(b'A'),
        &address(b'P'),
        &xlm_usd(),
        80_000_000,
        i128::MAX / 2,
        true,
    );
    assert_eq!(result, Ok(()));
    assert_eq!(ledger.take_actions().len(), 1);
}

#[test]
fn base_multiplier_is_five() {
    assert_eq!(LOW_LIQUIDITY_SLASH_MULTIPLIER, 5);
}
