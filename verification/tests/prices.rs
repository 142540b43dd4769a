use price_oracle::asset_symbol::is_approved_asset_symbol;
use price_oracle::ledger::{Deployment, Ledger};
use price_oracle::types::Action;
use price_oracle::validation::{get_provider_liquidity, set_liquidity_threshold_internal};
use price_oracle::{
    Address, ContractError, Error, PriceData, PriceOracle, PriceUpdated, SubmissionError, Symbol,
};
use soroban_sdk::Env;

const NOW: u64 = 1_700_000_000;

fn address(mark: u8) -> Address {
    Address::new(&[mark; 56]).unwrap()
}

fn ledger() -> Ledger {
    let deployment = Deployment { contract: address(b'C'), min_unbonding_delay_ledgers: 120 };
    Ledger::new(&Env::default(), deployment, NOW)
}

fn symbol(name: &[u8]) -> Symbol {
    Symbol::new(name).unwrap()
}

#[test]
fn unknown_asset_is_not_found() {
    let ledger = ledger();
    assert_eq!(PriceOracle::get_price(&ledger, symbol(b"NGN")), Err(Error::AssetNotFound));
    assert_eq!(PriceOracle::get_price_safe(&ledger, symbol(b"NGN")), None);
    assert!(PriceOracle::get_all_assets(&ledger).is_empty());
}

#[test]
fn price_reads_back() {
    let mut ledger = ledger();
    assert_eq!(PriceOracle::set_price(&mut ledger, symbol(b"NGN"), 1_500), Ok(()));
    let data = PriceData { price: 1_500, timestamp: NOW, provider: address(b'C') };
    assert_eq!(PriceOracle::get_price(&ledger, symbol(b"NGN")), Ok(data));
    assert_eq!(PriceOracle::get_price_safe(&ledger, symbol(b"NGN")), Some(data));
    assert_eq!(ledger.take_actions(), vec![Action::StorePrice(symbol(b"NGN"), data)]);
}

#[test]
fn extreme_prices_read_back() {
    let mut ledger = ledger();
    for price in [i128::MIN, -1, 0, 1, i128::MAX] {
        PriceOracle::set_price(&mut ledger, symbol(b"X"), price).unwrap();
        assert_eq!(PriceOracle::get_price(&ledger, symbol(b"X")).unwrap().price, price);
    }
}

#[test]
fn new_price_replaces_the_old_one_of_its_asset() {
    let mut ledger = ledger();
    let old = PriceData { price: 7, timestamp: 3, provider: address(b'P') };
    ledger.restore(Action::StorePrice(symbol(b"NGN"), old));
    ledger.restore(Action::StorePrice(symbol(b"KES"), old));
    assert!(ledger.take_actions().is_empty());
    PriceOracle::set_price(&mut ledger, symbol(b"NGN"), 8).unwrap();
    assert_eq!(PriceOracle::get_price(&ledger, symbol(b"NGN")).unwrap().price, 8);
    assert_eq!(PriceOracle::get_price(&ledger, symbol(b"NGN")).unwrap().timestamp, NOW);
    assert_eq!(PriceOracle::get_price(&ledger, symbol(b"KES")), Ok(old));
}

#[test]
fn assets_are_listed_in_order() {
    let mut ledger = ledger();
    for name in [&b"NGN"[..], b"KES", b"a_longer_symbol_of_32_characters", b"GHS", b"NG", b"_", b"NGN"] {
        PriceOracle::set_price(&mut ledger, symbol(name), 1).unwrap();
    }
    let assets = PriceOracle::get_all_assets(&ledger);
    let names: Vec<Vec<u8>> = assets.iter().map(|asset| asset.text()).collect();
    assert_eq!(
        names,
        vec![
            b"GHS".to_vec(),
            b"KES".to_vec(),
            b"NG".to_vec(),
            b"NGN".to_vec(),
            b"_".to_vec(),
            b"a_longer_symbol_of_32_characters".to_vec(),
        ]
    );
}

#[test]
fn approved_assets_are_ngn_kes_and_ghs() {
    for name in [&b"NGN"[..], b"KES", b"GHS"] {
        assert!(is_approved_asset_symbol(symbol(name)));
    }
    for name in [&b""[..], b"N", b"NG", b"NGNX", b"ngn", b"USD", b"XLM_USD", b"KEN"] {
        assert!(!is_approved_asset_symbol(symbol(name)));
    }
}

#[test]
fn provider_updates_a_price() {
    let mut ledger = ledger();
    ledger.restore_provider(address(b'O'));
    ledger.restore_provider(address(b'P'));
    assert!(ledger.is_provider(&address(b'P')));
    assert!(!ledger.is_provider(&address(b'Q')));
    let (source, asset) = (address(b'P'), symbol(b"KES"));
    assert_eq!(PriceOracle::update_price(&mut ledger, source, asset, 130), Ok(()));
    let data = PriceData { price: 130, timestamp: NOW, provider: source };
    assert_eq!(PriceOracle::get_price(&ledger, asset), Ok(data));
    assert_eq!(
        ledger.take_actions(),
        vec![
            Action::RequireAuth(source),
            Action::StorePrice(asset, data),
            Action::PublishPrice(PriceUpdated { source, asset, price: 130, timestamp: NOW }),
        ]
    );
}

#[test]
fn unapproved_asset_is_refused_whoever_submits_it() {
    let mut ledger = ledger();
    let result = PriceOracle::update_price(&mut ledger, address(b'Q'), symbol(b"USD"), 1);
    assert_eq!(result, Err(Error::InvalidAssetSymbol));
    assert_eq!(PriceOracle::get_price_safe(&ledger, symbol(b"USD")), None);
    assert!(ledger.take_actions().is_empty());
}

#[test]
fn thin_markets_set_no_price() {
    let mut ledger = ledger();
    let (source, asset) = (address(b'P'), symbol(b"GHS"));
    ledger.restore_provider(source);
    set_liquidity_threshold_internal(&mut ledger, &asset, 100_000_000).unwrap();

    let result =
        PriceOracle::update_price_with_liquidity(&mut ledger, source, asset, 12, 50_000_000);
    assert_eq!(
        result,
        Err(SubmissionError::Liquidity(ContractError::LiquidityBelowThreshold))
    );
    assert_eq!(PriceOracle::get_price_safe(&ledger, asset), None);
    assert_eq!(get_provider_liquidity(&ledger, &source, &asset), Some(50_000_000));

    assert_eq!(ledger.take_actions()[2], Action::RequireAuth(source));

    let result = PriceOracle::update_price_with_liquidity(&mut ledger, source, asset, 12, 0);
    assert_eq!(result, Err(SubmissionError::Liquidity(ContractError::InvalidLiquidity)));

    let result =
        PriceOracle::update_price_with_liquidity(&mut ledger, source, asset, 12, 100_000_000);
    assert_eq!(result, Ok(()));
    assert_eq!(PriceOracle::get_price(&ledger, asset).unwrap().price, 12);

    ledger.take_actions();
    let usd = symbol(b"USD");
    let result = PriceOracle::update_price_with_liquidity(&mut ledger, source, usd, 12, 1);
    assert_eq!(result, Err(SubmissionError::Price(Error::InvalidAssetSymbol)));
    assert_eq!(PriceOracle::get_price_safe(&ledger, usd), None);
    assert!(ledger.take_actions().is_empty());
}

#[test]
fn price_is_stale_after_a_day() {
    let ledger = ledger();
    assert!(!PriceOracle::is_timestamp_stale(&ledger, NOW));
    assert!(!PriceOracle::is_timestamp_stale(&ledger, NOW - 86_400));
    assert!(PriceOracle::is_timestamp_stale(&ledger, NOW - 86_401));
    assert!(PriceOracle::is_timestamp_stale(&ledger, 0));
    assert!(!PriceOracle::is_timestamp_stale(&ledger, NOW + 1));
    assert!(!PriceOracle::is_timestamp_stale(&ledger, u64::MAX));
}

#[test]
fn admin_is_initialised() {
    let mut ledger = ledger();
    assert_eq!(ledger.admin(), None);
    PriceOracle::init_admin(&mut ledger, address(b'A'));
    assert_eq!(ledger.admin(), Some(address(b'A')));
    assert_eq!(
        ledger.take_actions(),
        vec![Action::RequireAuth(address(b'A')), Action::SetAdmin(address(b'A'))]
    );
    PriceOracle::set_price(&mut ledger, symbol(b"NGN"), 1).unwrap();
    assert_eq!(ledger.admin(), Some(address(b'A')));
}

#[test]
fn unbonding_delay_is_that_of_the_deployment() {
    assert_eq!(PriceOracle::min_unbonding_delay_ledgers(&ledger()), 120);
}

#[test]
fn replayed_actions_give_the_same_state() {
    let mut first = ledger();
    let (source, asset) = (address(b'P'), symbol(b"GHS"));
    first.restore_provider(source);
    set_liquidity_threshold_internal(&mut first, &asset, 100_000_000).unwrap();
    PriceOracle::update_price_with_liquidity(&mut first, source, asset, 5, 100_000_001).unwrap();
    PriceOracle::init_admin(&mut first, address(b'A'));

    let mut second = ledger();
    for action in first.take_actions() {
        second.restore(action);
    }
    assert_eq!(second.admin(), first.admin());
    assert_eq!(
        PriceOracle::get_price(&second, asset),
        PriceOracle::get_price(&first, asset)
    );
    assert_eq!(
        get_provider_liquidity(&second, &source, &asset),
        get_provider_liquidity(&first, &source, &asset)
    );
}
