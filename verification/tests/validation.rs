use price_oracle::ledger::{Deployment, Ledger};
use price_oracle::types::{Action, DataKey, LiquidityEvent};
use price_oracle::validation::{
    get_last_validation_timestamp, get_liquidity_threshold, get_provider_liquidity,
    remove_liquidity_threshold_internal, set_liquidity_threshold_internal, validate_liquidity,
    MAX_LIQUIDITY_THRESHOLD, MIN_LIQUIDITY_THRESHOLD,
};
use price_oracle::{Address, ContractError, Symbol};
use soroban_sdk::Env;

const NOW: u64 = 1_700_000_000;

fn address(mark: u8) -> Address {
    Address::new(&[mark; 56]).unwrap()
}

fn ledger() -> Ledger {
    let deployment = Deployment { contract: address(b'C'), min_unbonding_delay_ledgers: 120 };
    Ledger::new(&Env::default(), deployment, NOW)
}

fn symbol(name: &[u8]) -> Symbol {
    Symbol::new(name).unwrap()
}

#[test]
fn insufficient_liquidity_is_refused() {
    let asset = symbol(b"XLM_USD");
    let provider = address(b'P');
    let mut ledger = ledger();
    set_liquidity_threshold_internal(&mut ledger, &asset, 100_000_000).unwrap();
    ledger.take_actions();

    let result = validate_liquidity(&mut ledger, &asset, &provider, 50_000_000);

    assert_eq!(result, Err(ContractError::LiquidityBelowThreshold));
    assert_eq!(get_provider_liquidity(&ledger, &provider, &asset), Some(50_000_000));
    assert_eq!(get_last_validation_timestamp(&ledger, &asset), None);
    let event = LiquidityEvent::Violation {
        asset,
        provider,
        reported_liquidity: 50_000_000,
        threshold: 100_000_000,
    };
    assert_eq!(event.topic(), "liquidity_violation");
    assert_eq!(
        ledger.take_actions(),
        vec![
            Action::Publish(event),
            Action::SetAmount(DataKey::ProviderReportedLiquidity(provider, asset), 50_000_000),
        ]
    );
}

#[test]
fn sufficient_liquidity_is_accepted() {
    let asset = symbol(b"XLM_USD");
    let provider = address(b'P');
    let mut ledger = ledger();
    set_liquidity_threshold_internal(&mut ledger, &asset, 100_000_000).unwrap();
    ledger.take_actions();

    assert_eq!(validate_liquidity(&mut ledger, &asset, &provider, 100_000_000), Ok(()));

    assert_eq!(get_provider_liquidity(&ledger, &provider, &asset), Some(100_000_000));
    assert_eq!(get_last_validation_timestamp(&ledger, &asset), Some(NOW));
    let event = LiquidityEvent::Validated {
        asset,
        provider,
        reported_liquidity: 100_000_000,
        threshold: 100_000_000,
    };
    assert_eq!(event.topic(), "liquidity_validated");
    assert_eq!(
        ledger.take_actions(),
        vec![
            Action::SetAmount(DataKey::ProviderReportedLiquidity(provider, asset), 100_000_000),
            Action::SetTime(DataKey::LastLiquidityValidation(asset), NOW),
            Action::Publish(event),
        ]
    );
}

#[test]
fn negative_and_zero_liquidity_are_invalid() {
    let asset = symbol(b"XLM_USD");
    let provider = address(b'P');
    let mut ledger = ledger();
    for reported in [0, -1, i128::MIN] {
        assert_eq!(
            validate_liquidity(&mut ledger, &asset, &provider, reported),
            Err(ContractError::InvalidLiquidity)
        );
    }
    set_liquidity_threshold_internal(&mut ledger, &asset, 100_000_000).unwrap();
    ledger.take_actions();
    assert_eq!(
        validate_liquidity(&mut ledger, &asset, &provider, 0),
        Err(ContractError::InvalidLiquidity)
    );
    assert!(ledger.take_actions().is_empty());
    assert_eq!(get_provider_liquidity(&ledger, &provider, &asset), None);
}

#[test]
fn without_threshold_every_positive_report_passes() {
    let asset = symbol(b"XLM_USD");
    let provider = address(b'P');
    let mut ledger = ledger();
    assert_eq!(get_liquidity_threshold(&ledger, &asset), None);
    assert_eq!(validate_liquidity(&mut ledger, &asset, &provider, 1), Ok(()));
    assert_eq!(validate_liquidity(&mut ledger, &asset, &provider, i128::MAX), Ok(()));
    assert_eq!(get_provider_liquidity(&ledger, &provider, &asset), None);
    assert_eq!(get_last_validation_timestamp(&ledger, &asset), None);
    assert!(ledger.take_actions().is_empty());
}

#[test]
fn refusal_keeps_the_time_of_the_last_success() {
    let asset = symbol(b"XLM_USD");
    let provider = address(b'P');
    let mut ledger = ledger();
    ledger.restore(Action::SetTime(DataKey::LastLiquidityValidation(asset), 42));
    ledger.restore(Action::SetAmount(DataKey::LiquidityThreshold(asset), 10_000_000));
    assert!(validate_liquidity(&mut ledger, &asset, &provider, 9_999_999).is_err());
    assert_eq!(get_last_validation_timestamp(&ledger, &asset), Some(42));
    assert!(validate_liquidity(&mut ledger, &asset, &provider, 10_000_000).is_ok());
    assert_eq!(get_last_validation_timestamp(&ledger, &asset), Some(NOW));
}

#[test]
fn threshold_reads_back() {
    let asset = symbol(b"XLM_USD");
    let mut ledger = ledger();
    assert_eq!(set_liquidity_threshold_internal(&mut ledger, &asset, 20_000_000), Ok(()));
    assert_eq!(get_liquidity_threshold(&ledger, &asset), Some(20_000_000));
    assert_eq!(set_liquidity_threshold_internal(&mut ledger, &asset, 30_000_000), Ok(()));
    assert_eq!(get_liquidity_threshold(&ledger, &asset), Some(30_000_000));
    let event = LiquidityEvent::ThresholdSet { asset, threshold: 20_000_000 };
    assert_eq!(event.topic(), "liquidity_threshold_set");
    assert_eq!(
        ledger.take_actions()[..2],
        [
            Action::SetAmount(DataKey::LiquidityThreshold(asset), 20_000_000),
            Action::Publish(event),
        ]
    );
}

#[test]
fn threshold_bounds_are_inclusive() {
    let asset = symbol(b"XLM_USD");
    let mut ledger = ledger();
    assert_eq!(MIN_LIQUIDITY_THRESHOLD, 10_000_000);
    assert_eq!(MAX_LIQUIDITY_THRESHOLD, 10_000_000_000_000_000);
    for threshold in [MIN_LIQUIDITY_THRESHOLD, MAX_LIQUIDITY_THRESHOLD] {
        assert_eq!(set_liquidity_threshold_internal(&mut ledger, &asset, threshold), Ok(()));
        assert_eq!(get_liquidity_threshold(&ledger, &asset), Some(threshold));
    }
    ledger.take_actions();
    for threshold in [MIN_LIQUIDITY_THRESHOLD - 1, MAX_LIQUIDITY_THRESHOLD + 1, 0, -1] {
        assert_eq!(
            set_liquidity_threshold_internal(&mut ledger, &asset, threshold),
            Err(ContractError::InvalidLiquidityThreshold)
        );
    }
    assert_eq!(get_liquidity_threshold(&ledger, &asset), Some(MAX_LIQUIDITY_THRESHOLD));
    assert!(ledger.take_actions().is_empty());
}

#[test]
fn removed_threshold_is_gone() {
    let asset = symbol(b"XLM_USD");
    let provider = address(b'P');
    let mut ledger = ledger();
    set_liquidity_threshold_internal(&mut ledger, &asset, 100_000_000).unwrap();
    ledger.take_actions();
    remove_liquidity_threshold_internal(&mut ledger, &asset);
    assert_eq!(get_liquidity_threshold(&ledger, &asset), None);
    let event = LiquidityEvent::ThresholdRemoved { asset };
    assert_eq!(event.topic(), "liquidity_threshold_removed");
    assert_eq!(
        ledger.take_actions(),
        vec![
            Action::RemoveAmount(DataKey::LiquidityThreshold(asset)),
            Action::Publish(event),
        ]
    );
    assert_eq!(validate_liquidity(&mut ledger, &asset, &provider, 1), Ok(()));
}

#[test]
fn removing_an_unknown_threshold_is_harmless() {
    let mut ledger = ledger();
    set_liquidity_threshold_internal(&mut ledger, &symbol(b"KES"), 100_000_000).unwrap();
    remove_liquidity_threshold_internal(&mut ledger, &symbol(b"NGN"));
    assert_eq!(get_liquidity_threshold(&ledger, &symbol(b"KES")), Some(100_000_000));
}

#[test]
fn thresholds_and_reports_are_kept_apart() {
    let (ngn, kes, ghs) = (symbol(b"NGN"), symbol(b"KES"), symbol(b"GHS"));
    let (alice, bob) = (address(b'A'), address(b'B'));
    let mut ledger = ledger();
    set_liquidity_threshold_internal(&mut ledger, &ngn, 10_000_000).unwrap();
    set_liquidity_threshold_internal(&mut ledger, &kes, 20_000_000).unwrap();
    set_liquidity_threshold_internal(&mut ledger, &ghs, 30_000_000).unwrap();
    assert_eq!(validate_liquidity(&mut ledger, &ngn, &alice, 15_000_000), Ok(()));
    assert_eq!(
        validate_liquidity(&mut ledger, &kes, &alice, 15_000_000),
        Err(ContractError::LiquidityBelowThreshold)
    );
    assert_eq!(validate_liquidity(&mut ledger, &ngn, &bob, 16_000_000), Ok(()));
    remove_liquidity_threshold_internal(&mut ledger, &kes);
    assert_eq!(get_liquidity_threshold(&ledger, &ngn), Some(10_000_000));
    assert_eq!(get_liquidity_threshold(&ledger, &kes), None);
    assert_eq!(get_liquidity_threshold(&ledger, &ghs), Some(30_000_000));
    assert_eq!(get_provider_liquidity(&ledger, &alice, &ngn), Some(15_000_000));
    assert_eq!(get_provider_liquidity(&ledger, &alice, &kes), Some(15_000_000));
    assert_eq!(get_provider_liquidity(&ledger, &alice, &ghs), None);
    assert_eq!(get_provider_liquidity(&ledger, &bob, &ngn), Some(16_000_000));
    assert_eq!(get_last_validation_timestamp(&ledger, &ngn), Some(NOW));
    assert_eq!(get_last_validation_timestamp(&ledger, &kes), None);
}
