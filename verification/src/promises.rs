//! What each operation promises to its callers.
//!
//! Every proof function of this module takes the inputs and the result of calls, with
//! `call_ensures` to say that they belong together, and concludes what a caller may rely on:
//! answers, storage entries and actions, in plain numbers and values. Those that conclude
//! `call_requires` say on which inputs an operation may be called.
use crate::asset_symbol::{code, is_approved_asset_symbol};
use crate::error::{ContractError, Error};
use crate::ledger::{Deployment, Ledger};
use crate::oracle::{PriceOracle, SubmissionError};
use crate::percentage::{calculate_percentage_change_bps, calculate_percentage_difference_bps};
use crate::price_map::{first_difference, precedes};
use crate::types::{
    is_symbol_byte, is_symbol_text, Action, Address, DataKey, LiquidityEvent, PriceData,
    PriceUpdated, Symbol,
};
use crate::validation::{
    calculate_liquidity_slash_multiplier, get_last_validation_timestamp,
    get_liquidity_threshold, get_provider_liquidity, plan_low_liquidity_slash,
    remove_liquidity_threshold_internal, set_liquidity_threshold_internal,
    slash_for_low_liquidity, validate_liquidity, SlashOrder,
};
use soroban_sdk::Env;
use vstd::prelude::*;

verus! {

// Percentages

/// A quotient that is rounded down is at most, and less than one below, the exact one.
proof fn lemma_rounded_down(n: int, m: int)
    requires
        n >= 0,
        m >= 1,
    ensures
        0 <= (n / m) * m <= n < (n / m) * m + m,
{
    assert(0 <= (n / m) * m <= n < (n / m) * m + m) by (nonlinear_arith)
        requires
            n >= 0,
            m >= 1,
    ;
}

/// A change is known exactly if there is a price to compare with and no step leaves `i128`.
/// It is the scaled move divided by the old price: no further from zero than that, less than
/// one basis point off, and never of the opposite sign.
pub proof fn law_change_is_the_move_over_the_old_price(
    old_price: i128,
    new_price: i128,
    change: Option<i128>,
)
    requires
        call_ensures(calculate_percentage_change_bps, (old_price, new_price), change),
    ensures
        change is Some <==> old_price != 0 && i128::MIN <= new_price - old_price <= i128::MAX
            && i128::MIN <= (new_price - old_price) * 10_000 <= i128::MAX,
        change matches Some(bps) ==> {
            let scaled = (new_price - old_price) * 10_000;
            &&& new_price >= old_price ==> 0 <= bps * old_price <= scaled
            &&& new_price <= old_price ==> scaled <= bps * old_price <= 0
            &&& old_price > 0 ==> -old_price < scaled - bps * old_price < old_price
            &&& old_price < 0 ==> old_price < scaled - bps * old_price < -old_price
        },
{
    if let Some(bps) = change {
        let scaled = (new_price - old_price) * 10_000;
        let n = if scaled >= 0 {
            scaled
        } else {
            -scaled
        };
        let m = if old_price > 0 {
            old_price as int
        } else {
            -(old_price as int)
        };
        lemma_rounded_down(n, m);
        let q = n / m;
        let old = old_price as int;
        assert((-q) * old == -(q * old)) by (nonlinear_arith);
        assert(q * (-old) == -(q * old)) by (nonlinear_arith);
        assert(bps == q || bps == -q);
    }
}

/// The difference is the change without its sign.
pub proof fn law_difference_is_the_change_without_its_sign(
    old_price: i128,
    new_price: i128,
    change: Option<i128>,
    difference: Option<i128>,
)
    requires
        call_ensures(calculate_percentage_change_bps, (old_price, new_price), change),
        call_ensures(calculate_percentage_difference_bps, (old_price, new_price), difference),
    ensures
        difference is Some <==> change is Some,
        difference matches Some(d) ==> change matches Some(bps) && d >= 0 && (d == bps || d
            == -bps),
{
}

/// Any two prices can be compared.
pub proof fn law_any_prices_can_be_compared(old_price: i128, new_price: i128)
    ensures
        call_requires(calculate_percentage_change_bps, (old_price, new_price)),
        call_requires(calculate_percentage_difference_bps, (old_price, new_price)),
{
}

// Reading storage

/// A threshold is read exactly as it is stored under its asset.
pub proof fn law_threshold_is_what_is_stored(
    ledger: &Ledger,
    asset: &Symbol,
    threshold: Option<i128>,
)
    requires
        call_ensures(get_liquidity_threshold, (ledger, asset), threshold),
    ensures
        match threshold {
            Some(t) => ledger@.store.amounts.contains_pair(DataKey::LiquidityThreshold(*asset), t),
            None => !ledger@.store.amounts.contains_key(DataKey::LiquidityThreshold(*asset)),
        },
{
}

/// Reported liquidity is read exactly as it is stored under its provider and asset.
pub proof fn law_provider_liquidity_is_what_is_stored(
    ledger: &Ledger,
    provider: &Address,
    asset: &Symbol,
    liquidity: Option<i128>,
)
    requires
        call_ensures(get_provider_liquidity, (ledger, provider, asset), liquidity),
    ensures
        match liquidity {
            Some(l) => ledger@.store.amounts.contains_pair(
                DataKey::ProviderReportedLiquidity(*provider, *asset),
                l,
            ),
            None => !ledger@.store.amounts.contains_key(
                DataKey::ProviderReportedLiquidity(*provider, *asset),
            ),
        },
{
}

/// The time of the last success is read exactly as it is stored under its asset.
pub proof fn law_last_validation_is_what_is_stored(
    ledger: &Ledger,
    asset: &Symbol,
    timestamp: Option<u64>,
)
    requires
        call_ensures(get_last_validation_timestamp, (ledger, asset), timestamp),
    ensures
        match timestamp {
            Some(t) => ledger@.store.times.contains_pair(
                DataKey::LastLiquidityValidation(*asset),
                t,
            ),
            None => !ledger@.store.times.contains_key(DataKey::LastLiquidityValidation(*asset)),
        },
{
}

/// Every well-formed ledger can be read.
pub proof fn law_any_ledger_can_be_read(
    ledger: &Ledger,
    provider: &Address,
    asset: &Symbol,
    key: &DataKey,
)
    requires
        ledger.wf(),
    ensures
        call_requires(get_liquidity_threshold, (ledger, asset)),
        call_requires(get_provider_liquidity, (ledger, provider, asset)),
        call_requires(get_last_validation_timestamp, (ledger, asset)),
        call_requires(PriceOracle::get_price, (ledger, *asset)),
        call_requires(PriceOracle::get_price_safe, (ledger, *asset)),
        call_requires(PriceOracle::get_all_assets, (ledger,)),
        call_requires(Ledger::amount, (ledger, key)),
        call_requires(Ledger::time, (ledger, key)),
        call_requires(Ledger::price, (ledger, asset)),
        call_requires(Ledger::assets, (ledger,)),
{
}

// Validation

/// A report is accepted exactly if it is positive and, where its asset has a threshold, meets
/// it. It is refused as invalid exactly if it is not positive, and as too low otherwise.
pub proof fn law_reports_are_judged_by_the_threshold(
    ledger: &mut Ledger,
    asset: &Symbol,
    provider: &Address,
    reported_liquidity: i128,
    result: Result<(), ContractError>,
)
    requires
        call_ensures(validate_liquidity, (ledger, asset, provider, reported_liquidity), result),
    ensures
        ({
            let amounts = old(ledger)@.store.amounts;
            let key = DataKey::LiquidityThreshold(*asset);
            &&& result is Ok <==> reported_liquidity > 0 && (amounts.contains_key(key)
                ==> reported_liquidity >= amounts[key])
            &&& result == Err::<(), ContractError>(ContractError::InvalidLiquidity)
                <==> reported_liquidity <= 0
            &&& result == Err::<(), ContractError>(ContractError::LiquidityBelowThreshold) <==> {
                &&& amounts.contains_key(key)
                &&& 0 < reported_liquidity < amounts[key]
            }
        }),
{
}

/// What a validation leaves behind. A positive report that a threshold stands against is
/// stored for its provider; a success also stores the time; each is announced. Nothing else
/// changes, and no other report changes anything.
pub proof fn law_validation_records_and_announces(
    ledger: &mut Ledger,
    asset: &Symbol,
    provider: &Address,
    reported_liquidity: i128,
    result: Result<(), ContractError>,
)
    requires
        call_ensures(validate_liquidity, (ledger, asset, provider, reported_liquidity), result),
    ensures
        final(ledger).wf(),
        ({
            let before = old(ledger)@;
            let after = final(ledger)@;
            let key = DataKey::LiquidityThreshold(*asset);
            let threshold = before.store.amounts[key];
            let report = DataKey::ProviderReportedLiquidity(*provider, *asset);
            let success = DataKey::LastLiquidityValidation(*asset);
            let judged = before.store.amounts.contains_key(key) && reported_liquidity > 0;
            &&& !judged ==> after == before
            &&& judged ==> after.store.amounts == before.store.amounts.insert(
                report,
                reported_liquidity,
            )
            &&& judged && reported_liquidity >= threshold ==> {
                &&& after.store.times == before.store.times.insert(success, before.timestamp)
                &&& after.actions == before.actions + seq![
                    Action::SetAmount(report, reported_liquidity),
                    Action::SetTime(success, before.timestamp),
                    Action::Publish(
                        LiquidityEvent::Validated {
                            asset: *asset,
                            provider: *provider,
                            reported_liquidity,
                            threshold,
                        },
                    ),
                ]
            }
            &&& judged && reported_liquidity < threshold ==> {
                &&& after.store.times == before.store.times
                &&& after.actions == before.actions + seq![
                    Action::Publish(
                        LiquidityEvent::Violation {
                            asset: *asset,
                            provider: *provider,
                            reported_liquidity,
                            threshold,
                        },
                    ),
                    Action::SetAmount(report, reported_liquidity),
                ]
            }
            &&& after.store.prices == before.store.prices
            &&& after.store.admin == before.store.admin
            &&& after.store.providers == before.store.providers
            &&& after.timestamp == before.timestamp
            &&& after.deployment == before.deployment
        }),
{
}

/// Every report on every well-formed ledger is answered.
pub proof fn law_any_report_is_answered(
    ledger: &mut Ledger,
    asset: &Symbol,
    provider: &Address,
    reported_liquidity: i128,
    threshold: i128,
)
    requires
        ledger.wf(),
    ensures
        call_requires(validate_liquidity, (ledger, asset, provider, reported_liquidity)),
        call_requires(set_liquidity_threshold_internal, (ledger, asset, threshold)),
        call_requires(remove_liquidity_threshold_internal, (ledger, asset)),
{
}

// Configuration

/// Every threshold from 10_000_000 to 10_000_000_000_000_000 is taken, becomes that of the
/// asset and is announced. Every other is refused and changes nothing.
pub proof fn law_thresholds_within_bounds_are_taken(
    ledger: &mut Ledger,
    asset: &Symbol,
    threshold: i128,
    result: Result<(), ContractError>,
)
    requires
        call_ensures(set_liquidity_threshold_internal, (ledger, asset, threshold), result),
    ensures
        final(ledger).wf(),
        ({
            let before = old(ledger)@;
            let after = final(ledger)@;
            let key = DataKey::LiquidityThreshold(*asset);
            if 10_000_000 <= threshold <= 10_000_000_000_000_000 {
                &&& result == Ok::<(), ContractError>(())
                &&& after.store.amounts == before.store.amounts.insert(key, threshold)
                &&& after.actions == before.actions + seq![
                    Action::SetAmount(key, threshold),
                    Action::Publish(LiquidityEvent::ThresholdSet { asset: *asset, threshold }),
                ]
                &&& after.store.times == before.store.times
                &&& after.store.prices == before.store.prices
                &&& after.store.admin == before.store.admin
                &&& after.store.providers == before.store.providers
                &&& after.timestamp == before.timestamp
                &&& after.deployment == before.deployment
            } else {
                &&& result == Err::<(), ContractError>(ContractError::InvalidLiquidityThreshold)
                &&& after == before
            }
        }),
{
}

/// A removal deletes the threshold of its asset, announces it, and changes nothing else.
pub proof fn law_removal_deletes_one_threshold(ledger: &mut Ledger, asset: &Symbol)
    requires
        call_ensures(remove_liquidity_threshold_internal, (ledger, asset), ()),
    ensures
        final(ledger).wf(),
        ({
            let before = old(ledger)@;
            let after = final(ledger)@;
            let key = DataKey::LiquidityThreshold(*asset);
            &&& after.store.amounts == before.store.amounts.remove(key)
            &&& after.actions == before.actions + seq![
                Action::RemoveAmount(key),
                Action::Publish(LiquidityEvent::ThresholdRemoved { asset: *asset }),
            ]
            &&& after.store.times == before.store.times
            &&& after.store.prices == before.store.prices
            &&& after.store.admin == before.store.admin
            &&& after.store.providers == before.store.providers
            &&& after.timestamp == before.timestamp
            &&& after.deployment == before.deployment
        }),
{
}

/// A threshold that was taken is the one that is read afterwards, and the one that reports on
/// its asset are held against.
pub proof fn law_taken_threshold_is_in_force(
    ledger: &mut Ledger,
    asset: &Symbol,
    threshold: i128,
    configured: &mut Ledger,
    read: Option<i128>,
    provider: &Address,
    reported_liquidity: i128,
    answer: Result<(), ContractError>,
)
    requires
        call_ensures(
            set_liquidity_threshold_internal,
            (ledger, asset, threshold),
            Ok::<(), ContractError>(()),
        ),
        *configured == *final(ledger),
        call_ensures(get_liquidity_threshold, (&*configured, asset), read),
        call_ensures(
            validate_liquidity,
            (configured, asset, provider, reported_liquidity),
            answer,
        ),
    ensures
        read == Some(threshold),
        answer is Ok <==> reported_liquidity >= threshold,
{
}

// Penalties

/// Every report whose share of the threshold can be computed has a multiplier: where there is
/// a threshold to divide by, ten thousand times the report has to be an `i128`.
pub proof fn law_any_share_has_a_multiplier(reported_liquidity: i128, threshold: i128)
    requires
        threshold == 0 || i128::MIN <= reported_liquidity * 10_000 <= i128::MAX,
    ensures
        call_requires(calculate_liquidity_slash_multiplier, (reported_liquidity, threshold)),
{
}

/// The multiplier goes by the share of the threshold that was reported: 1 from all of it, 2
/// from three quarters, 4 from half, 8 from one quarter and 16 below that. Where there is
/// nothing to fall short of it is 1, and below zero both numbers count with their signs turned.
pub proof fn law_multiplier_goes_by_quarters(
    reported_liquidity: i128,
    threshold: i128,
    multiplier: i128,
)
    requires
        call_ensures(
            calculate_liquidity_slash_multiplier,
            (reported_liquidity, threshold),
            multiplier,
        ),
    ensures
        threshold == 0 ==> multiplier == 1,
        threshold != 0 ==> {
            let report = if threshold > 0 {
                reported_liquidity as int
            } else {
                -reported_liquidity
            };
            let whole = if threshold > 0 {
                threshold as int
            } else {
                -threshold
            };
            &&& report >= whole ==> multiplier == 1
            &&& report < whole && 4 * report >= 3 * whole ==> multiplier == 2
            &&& 4 * report < 3 * whole && 2 * report >= whole ==> multiplier == 4
            &&& 2 * report < whole && 4 * report >= whole ==> multiplier == 8
            &&& 4 * report < whole ==> multiplier == 16
        },
{
}

/// A penalty can be planned for every report that has a multiplier.
pub proof fn law_any_share_can_be_slashed(
    ledger: &mut Ledger,
    executor: &Address,
    provider: &Address,
    asset: &Symbol,
    reported_liquidity: i128,
    base_slash_amount: i128,
    executed: bool,
)
    requires
        ledger.wf(),
        ({
            let amounts = ledger@.store.amounts;
            let key = DataKey::LiquidityThreshold(*asset);
            amounts.contains_key(key) && amounts[key] != 0 ==> i128::MIN <= reported_liquidity
                * 10_000 <= i128::MAX
        }),
    ensures
        call_requires(
            plan_low_liquidity_slash,
            (&*old(ledger), executor, provider, asset, reported_liquidity, base_slash_amount),
        ),
        call_requires(
            slash_for_low_liquidity,
            (ledger, executor, provider, asset, reported_liquidity, base_slash_amount, executed),
        ),
{
}

/// Without a threshold there is no penalty, whatever was reported.
pub proof fn law_no_penalty_without_a_threshold(
    ledger: &Ledger,
    executor: &Address,
    provider: &Address,
    asset: &Symbol,
    reported_liquidity: i128,
    base_slash_amount: i128,
    order: Result<SlashOrder, ContractError>,
)
    requires
        call_ensures(
            plan_low_liquidity_slash,
            (ledger, executor, provider, asset, reported_liquidity, base_slash_amount),
            order,
        ),
    ensures
        !ledger@.store.amounts.contains_key(DataKey::LiquidityThreshold(*asset)) <==> order
            == Err::<SlashOrder, ContractError>(ContractError::InvalidLiquidityThreshold),
{
}

/// A penalty is the base amount times the multiplier for the report and the threshold of the
/// asset. It is refused exactly if that product is no `i128`.
pub proof fn law_penalty_is_base_times_multiplier(
    ledger: &Ledger,
    executor: &Address,
    provider: &Address,
    asset: &Symbol,
    reported_liquidity: i128,
    base_slash_amount: i128,
    order: Result<SlashOrder, ContractError>,
    threshold: i128,
    multiplier: i128,
)
    requires
        ledger@.store.amounts.contains_pair(DataKey::LiquidityThreshold(*asset), threshold),
        call_ensures(
            calculate_liquidity_slash_multiplier,
            (reported_liquidity, threshold),
            multiplier,
        ),
        call_ensures(
            plan_low_liquidity_slash,
            (ledger, executor, provider, asset, reported_liquidity, base_slash_amount),
            order,
        ),
    ensures
        order is Ok <==> i128::MIN <= base_slash_amount * multiplier <= i128::MAX,
        match order {
            Ok(penalty) => {
                &&& penalty.executor == *executor
                &&& penalty.provider == *provider
                &&& penalty.threshold == threshold
                &&& penalty.multiplier == multiplier
                &&& penalty.amount == base_slash_amount * multiplier
            },
            Err(error) => error == ContractError::InvalidSlashAmount,
        },
{
}

/// A request for slashing is answered as its plan is, where there is no penalty; otherwise it
/// succeeds exactly if the penalty was executed. A success is announced with the numbers of
/// the plan, and nothing else changes the ledger.
pub proof fn law_slashing_follows_its_plan(
    ledger: &mut Ledger,
    executor: &Address,
    provider: &Address,
    asset: &Symbol,
    reported_liquidity: i128,
    base_slash_amount: i128,
    executed: bool,
    order: Result<SlashOrder, ContractError>,
    result: Result<(), ContractError>,
)
    requires
        call_ensures(
            plan_low_liquidity_slash,
            (&*ledger, executor, provider, asset, reported_liquidity, base_slash_amount),
            order,
        ),
        call_ensures(
            slash_for_low_liquidity,
            (ledger, executor, provider, asset, reported_liquidity, base_slash_amount, executed),
            result,
        ),
    ensures
        final(ledger).wf(),
        match order {
            Err(error) => result == Err::<(), ContractError>(error) && final(ledger)@ == old(
                ledger,
            )@,
            Ok(penalty) => if executed {
                &&& result == Ok::<(), ContractError>(())
                &&& final(ledger)@.actions == old(ledger)@.actions.push(
                    Action::Publish(
                        LiquidityEvent::SlashExecuted {
                            provider: *provider,
                            asset: *asset,
                            reported_liquidity,
                            threshold: penalty.threshold,
                            multiplier: penalty.multiplier,
                            amount: penalty.amount,
                        },
                    ),
                )
                &&& final(ledger)@.store == old(ledger)@.store
                &&& final(ledger)@.timestamp == old(ledger)@.timestamp
                &&& final(ledger)@.deployment == old(ledger)@.deployment
            } else {
                &&& result == Err::<(), ContractError>(ContractError::InsufficientStake)
                &&& final(ledger)@ == old(ledger)@
            },
        },
{
}

// Names and numbers

/// A text names a symbol exactly if it has at most 32 characters, all of them letters, digits
/// or underscores. The symbol holds the text, with zero bytes behind it.
pub proof fn law_symbols_hold_their_text(text: &[u8], symbol: Option<Symbol>)
    requires
        call_ensures(Symbol::new, (text,), symbol),
    ensures
        symbol is Some <==> text@.len() <= 32 && (forall|i: int|
            0 <= i < text@.len() ==> {
                ||| 'a' as int <= #[trigger] text@[i] <= 'z' as int
                ||| 'A' as int <= text@[i] <= 'Z' as int
                ||| '0' as int <= text@[i] <= '9' as int
                ||| text@[i] == '_' as int
            }),
        symbol matches Some(made) ==> forall|i: int|
            0 <= i < 32 ==> #[trigger] made.name@[i] == (if i < text@.len() {
                text@[i]
            } else {
                0
            }),
{
    if let Some(made) = symbol {
        assert forall|i: int| 0 <= i < 32 implies #[trigger] made.name@[i] == (if i
            < text@.len() {
            text@[i]
        } else {
            0
        }) by {
            assert(made@[i] == made.name@[i]);
        }
    }
    if text@.len() <= 32 && (forall|i: int|
        0 <= i < text@.len() ==> {
            ||| 'a' as int <= #[trigger] text@[i] <= 'z' as int
            ||| 'A' as int <= text@[i] <= 'Z' as int
            ||| '0' as int <= text@[i] <= '9' as int
            ||| text@[i] == '_' as int
        }) {
        assert(is_symbol_text(text@));
    }
    if symbol is Some {
        assert forall|i: int| 0 <= i < text@.len() implies {
            ||| 'a' as int <= #[trigger] text@[i] <= 'z' as int
            ||| 'A' as int <= text@[i] <= 'Z' as int
            ||| '0' as int <= text@[i] <= '9' as int
            ||| text@[i] == '_' as int
        } by {
            assert(is_symbol_byte(text@[i]));
        }
    }
}

/// A symbol gives back the text that it was made from.
pub proof fn law_symbols_give_their_text_back(text: &[u8], symbol: Symbol, name: Vec<u8>)
    requires
        call_ensures(Symbol::new, (text,), Some(symbol)),
        call_ensures(Symbol::text, (&symbol,), name),
    ensures
        name@ == text@,
{
    law_symbols_hold_their_text(text, Some(symbol));
    if name@.len() < text@.len() {
        assert(symbol.name@[name@.len() as int] == text@[name@.len() as int]);
        assert(is_symbol_byte(text@[name@.len() as int]));
    }
    if name@.len() > text@.len() {
        let end = text@.len() as int;
        assert(name@[end] != 0);
        assert(name@[end] == symbol@.take(name@.len() as int)[end]);
        assert(symbol.name@[end] == 0);
    }
    assert forall|i: int| 0 <= i < text@.len() implies name@[i] == text@[i] by {
        assert(name@[i] == symbol@.take(name@.len() as int)[i]);
        assert(symbol.name@[i] == text@[i]);
    }
}

/// The text of a symbol is what its bytes hold before the first zero.
pub proof fn law_text_ends_at_the_first_zero(symbol: &Symbol, text: Vec<u8>)
    requires
        call_ensures(Symbol::text, (symbol,), text),
    ensures
        text@.len() <= 32,
        text@ == symbol.name@.subrange(0, text@.len() as int),
        forall|i: int| 0 <= i < text@.len() ==> #[trigger] symbol.name@[i] != 0,
        text@.len() < 32 ==> symbol.name@[text@.len() as int] == 0,
{
    assert forall|i: int| 0 <= i < text@.len() implies #[trigger] symbol.name@[i] != 0 by {
        assert(text@[i] != 0);
        assert(text@[i] == symbol@.take(text@.len() as int)[i]);
    }
}

/// An address is made from every key of 56 characters, and holds it.
pub proof fn law_addresses_hold_their_key(strkey: &[u8], address: Option<Address>)
    requires
        call_ensures(Address::new, (strkey,), address),
    ensures
        address is Some <==> strkey@.len() == 56,
        address matches Some(made) ==> made.strkey@ == strkey@,
{
}

/// Two symbols are the same exactly if they hold the same bytes.
pub proof fn law_same_symbols_are_equal(a: &Symbol, b: &Symbol, same: bool)
    requires
        call_ensures(Symbol::same, (a, b), same),
    ensures
        same <==> a.name == b.name,
{
}

/// Two addresses are the same exactly if they hold the same key.
pub proof fn law_same_addresses_are_equal(a: &Address, b: &Address, same: bool)
    requires
        call_ensures(Address::same, (a, b), same),
    ensures
        same <==> a.strkey == b.strkey,
{
}

/// Two keys are the same exactly if they are of one variant, with the same contents.
pub proof fn law_same_keys_are_equal(a: &DataKey, b: &DataKey, same: bool)
    requires
        call_ensures(DataKey::same, (a, b), same),
    ensures
        same <==> match (*a, *b) {
            (DataKey::LiquidityThreshold(x), DataKey::LiquidityThreshold(y)) => x == y,
            (
                DataKey::ProviderReportedLiquidity(p, x),
                DataKey::ProviderReportedLiquidity(q, y),
            ) => p == q && x == y,
            (DataKey::LastLiquidityValidation(x), DataKey::LastLiquidityValidation(y)) => x == y,
            _ => false,
        },
{
}

/// Errors are reported under the numbers from 1 to 9, in the order of their declaration.
pub proof fn law_errors_have_fixed_numbers(error: Error, code: u32)
    requires
        call_ensures(Error::code, (error,), code),
    ensures
        code == 1 <==> error == Error::AssetNotFound,
        code == 2 <==> error == Error::Unauthorized,
        code == 3 <==> error == Error::InvalidAssetSymbol,
        code == 4 <==> error == Error::InvalidStakeAmount,
        code == 5 <==> error == Error::UnbondingAlreadyQueued,
        code == 6 <==> error == Error::UnbondingRequestNotFound,
        code == 7 <==> error == Error::UnbondingDelayActive,
        code == 8 <==> error == Error::UnbondingAlreadyReleased,
        code == 9 <==> error == Error::LedgerSequenceOverflow,
        1 <= code <= 9,
{
}

/// Every event is published under the topic of its variant.
pub proof fn law_events_have_fixed_topics(event: &LiquidityEvent, topic: &'static str)
    requires
        call_ensures(LiquidityEvent::topic, (event,), topic),
    ensures
        event is Violation ==> topic@ == "liquidity_violation"@,
        event is Validated ==> topic@ == "liquidity_validated"@,
        event is ThresholdSet ==> topic@ == "liquidity_threshold_set"@,
        event is ThresholdRemoved ==> topic@ == "liquidity_threshold_removed"@,
        event is SlashExecuted ==> topic@ == "liquidity_slash_executed"@,
{
}

// Assets

/// An asset is approved exactly if its bytes are those of `NGN`, `KES` or `GHS`, with nothing
/// behind them.
pub proof fn law_approved_assets_by_their_bytes(asset: Symbol, approved: bool)
    requires
        call_ensures(is_approved_asset_symbol, (asset,), approved),
    ensures
        approved <==> {
            let name = asset.name@;
            &&& {
                ||| name[0] == 'N' as int && name[1] == 'G' as int && name[2] == 'N' as int
                ||| name[0] == 'K' as int && name[1] == 'E' as int && name[2] == 'S' as int
                ||| name[0] == 'G' as int && name[1] == 'H' as int && name[2] == 'S' as int
            }
            &&& forall|i: int| 3 <= i < 32 ==> #[trigger] name[i] == 0
        },
{
    lemma_code(asset, 0x4e, 0x47, 0x4e);
    lemma_code(asset, 0x4b, 0x45, 0x53);
    lemma_code(asset, 0x47, 0x48, 0x53);
}

/// A symbol has a code of three letters exactly if it holds them and nothing else.
proof fn lemma_code(asset: Symbol, a: u8, b: u8, c: u8)
    ensures
        asset@ == code(a, b, c) <==> {
            &&& asset.name@[0] == a
            &&& asset.name@[1] == b
            &&& asset.name@[2] == c
            &&& forall|i: int| 3 <= i < 32 ==> #[trigger] asset.name@[i] == 0
        },
{
    let letters = code(a, b, c);
    assert(letters.len() == 32);
    assert(letters[0] == a && letters[1] == b && letters[2] == c);
    if asset@ == letters {
        assert forall|i: int| 3 <= i < 32 implies #[trigger] asset.name@[i] == 0 by {
            assert(letters[i] == 0);
        }
    } else if asset.name@[0] == a && asset.name@[1] == b && asset.name@[2] == c && (forall|i: int|
        3 <= i < 32 ==> #[trigger] asset.name@[i] == 0) {
        assert(asset@ =~= letters);
    }
}

/// Of all symbols that a text can name, the approved ones are those named by the three texts
/// `NGN`, `KES` and `GHS`.
pub proof fn law_approved_assets_by_their_text(text: &[u8], asset: Symbol, approved: bool)
    requires
        call_ensures(Symbol::new, (text,), Some(asset)),
        call_ensures(is_approved_asset_symbol, (asset,), approved),
    ensures
        approved <==> {
            ||| text@ == seq!['N' as u8, 'G' as u8, 'N' as u8]
            ||| text@ == seq!['K' as u8, 'E' as u8, 'S' as u8]
            ||| text@ == seq!['G' as u8, 'H' as u8, 'S' as u8]
        },
{
    lemma_named_by_letters(text, asset, 0x4e, 0x47, 0x4e);
    lemma_named_by_letters(text, asset, 0x4b, 0x45, 0x53);
    lemma_named_by_letters(text, asset, 0x47, 0x48, 0x53);
}

/// A symbol that was made from a text has a code of three letters exactly if they are the text.
proof fn lemma_named_by_letters(text: &[u8], asset: Symbol, a: u8, b: u8, c: u8)
    requires
        call_ensures(Symbol::new, (text,), Some(asset)),
        a != 0,
        b != 0,
        c != 0,
    ensures
        asset@ == code(a, b, c) <==> text@ == seq![a, b, c],
{
    law_symbols_hold_their_text(text, Some(asset));
    lemma_code(asset, a, b, c);
    if asset@ == code(a, b, c) {
        if text@.len() > 3 {
            assert(asset.name@[3] == 0);
            assert(is_symbol_byte(text@[3]));
        }
        assert(text@ =~= seq![a, b, c]);
    }
}

// The ledger

/// An invocation starts with the time and the deployment that it is given, and with nothing
/// else: no admin, no providers, no entries and no actions.
pub proof fn law_invocations_start_empty(
    env: &Env,
    deployment: Deployment,
    timestamp: u64,
    ledger: Ledger,
)
    requires
        call_ensures(Ledger::new, (env, deployment, timestamp), ledger),
    ensures
        ledger.wf(),
        ledger@.timestamp == timestamp,
        ledger@.deployment == deployment,
        ledger@.store.admin == None::<Address>,
        forall|provider: Address| !ledger@.store.providers.contains(provider),
        forall|key: DataKey| !ledger@.store.amounts.contains_key(key),
        forall|key: DataKey| !ledger@.store.times.contains_key(key),
        forall|name: Seq<u8>| !ledger@.store.prices.contains_key(name),
        ledger@.actions.len() == 0,
{
}

/// Restoring an action changes the one place of storage that the action writes to, and
/// nothing else.
pub proof fn law_restoring_writes_one_place(ledger: &mut Ledger, action: Action)
    requires
        call_ensures(Ledger::restore, (ledger, action), ()),
    ensures
        final(ledger).wf(),
        ({
            let before = old(ledger)@;
            let after = final(ledger)@;
            &&& after.store.admin == match action {
                Action::SetAdmin(admin) => Some(admin),
                _ => before.store.admin,
            }
            &&& after.store.amounts == match action {
                Action::SetAmount(key, value) => before.store.amounts.insert(key, value),
                Action::RemoveAmount(key) => before.store.amounts.remove(key),
                _ => before.store.amounts,
            }
            &&& after.store.times == match action {
                Action::SetTime(key, time) => before.store.times.insert(key, time),
                _ => before.store.times,
            }
            &&& after.store.prices == match action {
                Action::StorePrice(asset, data) => before.store.prices.insert(
                    asset.name@,
                    (data.price, data.timestamp, data.provider.strkey@),
                ),
                _ => before.store.prices,
            }
            &&& after.store.providers == before.store.providers
            &&& after.timestamp == before.timestamp
            &&& after.deployment == before.deployment
            &&& after.actions == before.actions
        }),
{
}

/// Performing an action leaves storage as restoring it does, and notes it after all others.
pub proof fn law_performing_restores_and_notes(
    ledger: &mut Ledger,
    other: &mut Ledger,
    action: Action,
)
    requires
        *ledger == *other,
        call_ensures(Ledger::perform, (ledger, action), ()),
        call_ensures(Ledger::restore, (other, action), ()),
    ensures
        final(ledger).wf(),
        final(ledger)@.store == final(other)@.store,
        final(ledger)@.timestamp == old(ledger)@.timestamp,
        final(ledger)@.deployment == old(ledger)@.deployment,
        final(ledger)@.actions == old(ledger)@.actions.push(action),
{
}

/// Every action can be performed and restored, but for a price beyond the `u32::MAX` that a
/// map holds: a price can be stored where it replaces another or finds room.
pub proof fn law_any_action_with_room_can_be_performed(ledger: &mut Ledger, action: Action)
    requires
        ledger.wf(),
        action matches Action::StorePrice(asset, _) ==> {
            ||| ledger@.store.prices.contains_key(asset.name@)
            ||| ledger@.store.prices.len() < u32::MAX
        },
    ensures
        call_requires(Ledger::perform, (ledger, action)),
        call_requires(Ledger::restore, (ledger, action)),
{
}

/// Every well-formed ledger can be given one more provider, and hand over its actions.
pub proof fn law_any_ledger_can_be_extended(ledger: &mut Ledger, provider: Address)
    requires
        ledger.wf(),
    ensures
        call_requires(Ledger::restore_provider, (ledger, provider)),
        call_requires(Ledger::take_actions, (ledger,)),
{
}

/// A provider that is restored is listed from then on, besides those that were, and nothing
/// else changes.
pub proof fn law_restored_providers_are_listed(ledger: &mut Ledger, provider: Address)
    requires
        call_ensures(Ledger::restore_provider, (ledger, provider), ()),
    ensures
        final(ledger).wf(),
        ({
            let before = old(ledger)@;
            let after = final(ledger)@;
            &&& forall|address: Address| #[trigger]
                after.store.providers.contains(address) <==> address == provider
                    || before.store.providers.contains(address)
            &&& after.store.admin == before.store.admin
            &&& after.store.amounts == before.store.amounts
            &&& after.store.times == before.store.times
            &&& after.store.prices == before.store.prices
            &&& after.timestamp == before.timestamp
            &&& after.deployment == before.deployment
            &&& after.actions == before.actions
        }),
{
}

/// The actions that are handed over are all that were noted, in order. They are forgotten, and
/// nothing else is.
pub proof fn law_actions_are_handed_over_once(ledger: &mut Ledger, actions: Vec<Action>)
    requires
        call_ensures(Ledger::take_actions, (ledger,), actions),
    ensures
        final(ledger).wf(),
        actions@ == old(ledger)@.actions,
        final(ledger)@.actions.len() == 0,
        final(ledger)@.store == old(ledger)@.store,
        final(ledger)@.timestamp == old(ledger)@.timestamp,
        final(ledger)@.deployment == old(ledger)@.deployment,
{
}

/// A ledger tells its time, its deployment, its admin and its providers as they are.
pub proof fn law_ledgers_tell_what_they_hold(
    ledger: &Ledger,
    address: &Address,
    timestamp: u64,
    deployment: Deployment,
    admin: Option<Address>,
    listed: bool,
)
    requires
        call_ensures(Ledger::timestamp, (ledger,), timestamp),
        call_ensures(Ledger::deployment, (ledger,), deployment),
        call_ensures(Ledger::admin, (ledger,), admin),
        call_ensures(Ledger::is_provider, (ledger, address), listed),
    ensures
        timestamp == ledger@.timestamp,
        deployment == ledger@.deployment,
        admin == ledger@.store.admin,
        listed <==> ledger@.store.providers.contains(*address),
{
}

/// An entry of a ledger is read exactly as it is stored under its key.
pub proof fn law_entries_are_what_is_stored(
    ledger: &Ledger,
    key: &DataKey,
    amount: Option<i128>,
    time: Option<u64>,
)
    requires
        call_ensures(Ledger::amount, (ledger, key), amount),
        call_ensures(Ledger::time, (ledger, key), time),
    ensures
        match amount {
            Some(value) => ledger@.store.amounts.contains_pair(*key, value),
            None => !ledger@.store.amounts.contains_key(*key),
        },
        match time {
            Some(value) => ledger@.store.times.contains_pair(*key, value),
            None => !ledger@.store.times.contains_key(*key),
        },
{
}

// Prices

/// A price is found exactly if its asset is tracked, and then as it was stored, with its time
/// and its provider. The ledger and both entry points agree on it.
pub proof fn law_prices_are_what_is_stored(
    ledger: &Ledger,
    asset: Symbol,
    price: Result<PriceData, Error>,
    safe: Option<PriceData>,
    raw: Option<PriceData>,
)
    requires
        call_ensures(PriceOracle::get_price, (ledger, asset), price),
        call_ensures(PriceOracle::get_price_safe, (ledger, asset), safe),
        call_ensures(Ledger::price, (ledger, &asset), raw),
    ensures
        match price {
            Ok(data) => {
                &&& ledger@.store.prices.contains_pair(
                    asset.name@,
                    (data.price, data.timestamp, data.provider.strkey@),
                )
                &&& safe == Some(data)
                &&& raw == Some(data)
            },
            Err(error) => {
                &&& !ledger@.store.prices.contains_key(asset.name@)
                &&& error == Error::AssetNotFound
                &&& safe == None::<PriceData>
                &&& raw == None::<PriceData>
            },
        },
{
    if let (Ok(a), Some(b), Some(c)) = (price, safe, raw) {
        assert(a.provider.strkey =~= b.provider.strkey);
        assert(a.provider.strkey =~= c.provider.strkey);
    }
}

/// The list of assets, the contract's as well as the ledger's, holds exactly those that are
/// tracked.
pub proof fn law_tracked_assets_are_listed(ledger: &Ledger, assets: Vec<Symbol>, asset: Symbol)
    requires
        call_ensures(PriceOracle::get_all_assets, (ledger,), assets) || call_ensures(
            Ledger::assets,
            (ledger,),
            assets,
        ),
    ensures
        assets@.contains(asset) <==> ledger@.store.prices.contains_key(asset.name@),
{
    if call_ensures(PriceOracle::get_all_assets, (ledger,), assets) {
        assert(assets@.contains(asset) <==> ledger@.store.price(asset) is Some);
    } else {
        assert(ledger@.store.prices.contains_key(asset@) ==> assets@.contains(asset));
    }
}

/// Of two assets in the list, the one that comes first has the smaller byte at the first place
/// at which their names differ; so none is listed twice.
pub proof fn law_assets_are_listed_in_order(
    ledger: &Ledger,
    assets: Vec<Symbol>,
    i: int,
    j: int,
)
    requires
        call_ensures(PriceOracle::get_all_assets, (ledger,), assets) || call_ensures(
            Ledger::assets,
            (ledger,),
            assets,
        ),
        0 <= i < j < assets@.len(),
    ensures
        exists|k: int|
            0 <= k < 32 && #[trigger] assets@[i].name@[k] < assets@[j].name@[k] && (forall|l: int|
                0 <= l < k ==> #[trigger] assets@[i].name@[l] == assets@[j].name@[l]),
{
    let a = assets@[i].name@;
    let b = assets@[j].name@;
    assert(precedes(assets@[i]@, assets@[j]@));
    let k = choose|k: int| #[trigger] first_difference(a, b, k) && a[k] < b[k];
    assert(assets@[i].name@[k] < assets@[j].name@[k]);
}

/// A price is stale exactly if more than 86_400 seconds have passed since.
pub proof fn law_prices_are_stale_after_a_day(ledger: &Ledger, timestamp: u64, stale: bool)
    requires
        call_ensures(PriceOracle::is_timestamp_stale, (ledger, timestamp), stale),
    ensures
        stale <==> ledger@.timestamp > timestamp + 86_400,
{
}

/// The delay is the one that the deployment fixes.
pub proof fn law_delay_is_that_of_the_deployment(ledger: &Ledger, delay: u32)
    requires
        call_ensures(PriceOracle::min_unbonding_delay_ledgers, (ledger,), delay),
    ensures
        delay == ledger@.deployment.min_unbonding_delay_ledgers,
{
}

/// Whoever is initialised as admin is the first one, has to authorise it, and is stored;
/// nothing else changes.
pub proof fn law_first_admin_is_stored(ledger: &mut Ledger, address: Address)
    requires
        call_ensures(PriceOracle::init_admin, (ledger, address), ()),
    ensures
        final(ledger).wf(),
        ({
            let before = old(ledger)@;
            let after = final(ledger)@;
            &&& before.store.admin == None::<Address>
            &&& after.store.admin == Some(address)
            &&& after.actions == before.actions + seq![
                Action::RequireAuth(address),
                Action::SetAdmin(address),
            ]
            &&& after.store.amounts == before.store.amounts
            &&& after.store.times == before.store.times
            &&& after.store.prices == before.store.prices
            &&& after.store.providers == before.store.providers
            &&& after.timestamp == before.timestamp
            &&& after.deployment == before.deployment
        }),
{
}

/// Every contract without an admin can be given one, whoever it is.
pub proof fn law_any_first_admin_is_taken(ledger: &mut Ledger, address: Address)
    requires
        ledger.wf(),
        ledger@.store.admin == None::<Address>,
    ensures
        call_requires(PriceOracle::init_admin, (ledger, address)),
{
}

/// A price that the contract sets is stored for its asset, with the time of the ledger and the
/// contract as provider, without authorisation and without an announcement. Nothing else
/// changes.
pub proof fn law_set_prices_are_stored(
    ledger: &mut Ledger,
    asset: Symbol,
    val: i128,
    result: Result<(), Error>,
)
    requires
        call_ensures(PriceOracle::set_price, (ledger, asset, val), result),
    ensures
        final(ledger).wf(),
        result == Ok::<(), Error>(()),
        ({
            let before = old(ledger)@;
            let after = final(ledger)@;
            let provider = before.deployment.contract;
            &&& after.store.prices == before.store.prices.insert(
                asset.name@,
                (val, before.timestamp, provider.strkey@),
            )
            &&& after.actions == before.actions.push(
                Action::StorePrice(
                    asset,
                    PriceData { price: val, timestamp: before.timestamp, provider },
                ),
            )
            &&& after.store.amounts == before.store.amounts
            &&& after.store.times == before.store.times
            &&& after.store.admin == before.store.admin
            &&& after.store.providers == before.store.providers
            &&& after.timestamp == before.timestamp
            &&& after.deployment == before.deployment
        }),
{
}

/// Every price can be set where there is room for it, and every listed provider can update
/// one. An asset that is not approved needs neither, and a report that is refused no room.
pub proof fn law_any_price_can_be_submitted(
    ledger: &mut Ledger,
    source: Address,
    asset: Symbol,
    price: i128,
    reported_liquidity: i128,
    approved: bool,
)
    requires
        ledger.wf(),
        call_ensures(is_approved_asset_symbol, (asset,), approved),
        approved ==> ledger@.store.providers.contains(source),
    ensures
        ({
            let prices = old(ledger)@.store.prices;
            let room = prices.contains_key(asset.name@) || prices.len() < u32::MAX;
            let amounts = old(ledger)@.store.amounts;
            let key = DataKey::LiquidityThreshold(asset);
            let accepted = reported_liquidity > 0 && (amounts.contains_key(key)
                ==> reported_liquidity >= amounts[key]);
            &&& room ==> call_requires(PriceOracle::set_price, (ledger, asset, price))
            &&& room || !approved ==> call_requires(
                PriceOracle::update_price,
                (ledger, source, asset, price),
            )
            &&& room || !approved || !accepted ==> call_requires(
                PriceOracle::update_price_with_liquidity,
                (ledger, source, asset, price, reported_liquidity),
            )
        }),
{
}

/// An update succeeds exactly if its asset is approved. Then the relayer has to authorise it,
/// the price is stored with the time of the ledger and the relayer as provider, and announced;
/// nothing else changes. An update of any other asset is refused as `InvalidAssetSymbol` and
/// changes nothing.
pub proof fn law_approved_updates_are_stored(
    ledger: &mut Ledger,
    source: Address,
    asset: Symbol,
    price: i128,
    approved: bool,
    result: Result<(), Error>,
)
    requires
        call_ensures(is_approved_asset_symbol, (asset,), approved),
        call_ensures(PriceOracle::update_price, (ledger, source, asset, price), result),
    ensures
        final(ledger).wf(),
        ({
            let before = old(ledger)@;
            let after = final(ledger)@;
            let timestamp = before.timestamp;
            if approved {
                &&& result == Ok::<(), Error>(())
                &&& after.store.prices == before.store.prices.insert(
                    asset.name@,
                    (price, timestamp, source.strkey@),
                )
                &&& after.actions == before.actions + seq![
                    Action::RequireAuth(source),
                    Action::StorePrice(asset, PriceData { price, timestamp, provider: source }),
                    Action::PublishPrice(PriceUpdated { source, asset, price, timestamp }),
                ]
                &&& after.store.amounts == before.store.amounts
                &&& after.store.times == before.store.times
                &&& after.store.admin == before.store.admin
                &&& after.store.providers == before.store.providers
                &&& after.timestamp == before.timestamp
                &&& after.deployment == before.deployment
            } else {
                &&& result == Err::<(), Error>(Error::InvalidAssetSymbol)
                &&& after == before
            }
        }),
{
}

/// Only a listed provider changes a price: an update or a submission that changes the ledger
/// comes from one.
pub proof fn law_only_providers_change_prices(
    ledger: &mut Ledger,
    source: Address,
    asset: Symbol,
    price: i128,
    reported_liquidity: i128,
    update: Result<(), Error>,
    other: &mut Ledger,
    submission: Result<(), SubmissionError>,
)
    requires
        call_ensures(PriceOracle::update_price, (ledger, source, asset, price), update),
        call_ensures(
            PriceOracle::update_price_with_liquidity,
            (other, source, asset, price, reported_liquidity),
            submission,
        ),
    ensures
        update is Ok || final(ledger)@ != old(ledger)@ ==> old(
            ledger,
        )@.store.providers.contains(source),
        submission is Ok || final(other)@ != old(other)@ ==> old(
            other,
        )@.store.providers.contains(source),
{
}

/// Of all assets that a text can name, an update succeeds for `NGN`, `KES` and `GHS`, and makes
/// the price that of the asset. For every other it is refused and changes nothing.
pub proof fn law_updates_go_by_the_name_of_the_asset(
    text: &[u8],
    ledger: &mut Ledger,
    source: Address,
    asset: Symbol,
    price: i128,
    result: Result<(), Error>,
)
    requires
        call_ensures(Symbol::new, (text,), Some(asset)),
        call_ensures(PriceOracle::update_price, (ledger, source, asset, price), result),
    ensures
        ({
            let before = old(ledger)@;
            let after = final(ledger)@;
            let named = {
                ||| text@ == seq!['N' as u8, 'G' as u8, 'N' as u8]
                ||| text@ == seq!['K' as u8, 'E' as u8, 'S' as u8]
                ||| text@ == seq!['G' as u8, 'H' as u8, 'S' as u8]
            };
            &&& named ==> {
                &&& result == Ok::<(), Error>(())
                &&& after.store.prices == before.store.prices.insert(
                    asset.name@,
                    (price, before.timestamp, source.strkey@),
                )
            }
            &&& !named ==> {
                &&& result == Err::<(), Error>(Error::InvalidAssetSymbol)
                &&& after == before
            }
        }),
{
    lemma_named_by_letters(text, asset, 0x4e, 0x47, 0x4e);
    lemma_named_by_letters(text, asset, 0x4b, 0x45, 0x53);
    lemma_named_by_letters(text, asset, 0x47, 0x48, 0x53);
}

/// A submission for an asset that is not approved is refused as `InvalidAssetSymbol`. For an
/// approved one it is accepted exactly if the report is positive and, where the asset has a
/// threshold, meets it; every positive report on an asset without a threshold is accepted.
/// Refused reports are told apart as those of a validation are. The price becomes that of the
/// asset exactly if it is accepted.
pub proof fn law_submissions_are_judged_by_the_threshold(
    ledger: &mut Ledger,
    source: Address,
    asset: Symbol,
    price: i128,
    reported_liquidity: i128,
    approved: bool,
    result: Result<(), SubmissionError>,
)
    requires
        call_ensures(is_approved_asset_symbol, (asset,), approved),
        call_ensures(
            PriceOracle::update_price_with_liquidity,
            (ledger, source, asset, price, reported_liquidity),
            result,
        ),
    ensures
        ({
            let amounts = old(ledger)@.store.amounts;
            let key = DataKey::LiquidityThreshold(asset);
            &&& !approved <==> result == Err::<(), SubmissionError>(
                SubmissionError::Price(Error::InvalidAssetSymbol),
            )
            &&& result == Ok::<(), SubmissionError>(()) <==> approved && reported_liquidity > 0
                && (amounts.contains_key(key) ==> reported_liquidity >= amounts[key])
            &&& approved && reported_liquidity <= 0 <==> result == Err::<(), SubmissionError>(
                SubmissionError::Liquidity(ContractError::InvalidLiquidity),
            )
            &&& approved && amounts.contains_key(key) && 0 < reported_liquidity < amounts[key]
                <==> result == Err::<(), SubmissionError>(
                SubmissionError::Liquidity(ContractError::LiquidityBelowThreshold),
            )
            &&& final(ledger)@.store.prices == (if result is Ok {
                old(ledger)@.store.prices.insert(
                    asset.name@,
                    (price, old(ledger)@.timestamp, source.strkey@),
                )
            } else {
                old(ledger)@.store.prices
            })
        }),
{
}

/// What a submission leaves behind. An accepted one makes the price that of the asset, with the
/// time of the ledger and the relayer as provider, and changes no other price; a refused one
/// changes none. For an approved asset the relayer has to authorise it first, the report is
/// recorded and announced as by a validation, and the price is stored and announced last. For
/// any other asset nothing changes.
pub proof fn law_submissions_store_what_they_accept(
    ledger: &mut Ledger,
    source: Address,
    asset: Symbol,
    price: i128,
    reported_liquidity: i128,
    approved: bool,
    result: Result<(), SubmissionError>,
    validated: &mut Ledger,
    answer: Result<(), ContractError>,
)
    requires
        call_ensures(is_approved_asset_symbol, (asset,), approved),
        call_ensures(
            PriceOracle::update_price_with_liquidity,
            (ledger, source, asset, price, reported_liquidity),
            result,
        ),
        *validated == *ledger,
        call_ensures(validate_liquidity, (validated, &asset, &source, reported_liquidity), answer),
    ensures
        final(ledger).wf(),
        !approved ==> final(ledger)@ == old(ledger)@,
        approved ==> {
            let before = old(ledger)@;
            let after = final(ledger)@;
            let timestamp = before.timestamp;
            let checked = final(validated)@;
            let steps = checked.actions.skip(before.actions.len() as int);
            &&& result is Ok <==> answer is Ok
            &&& after.store.amounts == checked.store.amounts
            &&& after.store.times == checked.store.times
            &&& result is Ok ==> {
                &&& after.store.prices == before.store.prices.insert(
                    asset.name@,
                    (price, timestamp, source.strkey@),
                )
                &&& after.actions == before.actions + seq![Action::RequireAuth(source)] + steps
                    + seq![
                    Action::StorePrice(asset, PriceData { price, timestamp, provider: source }),
                    Action::PublishPrice(PriceUpdated { source, asset, price, timestamp }),
                ]
            }
            &&& result is Err ==> {
                &&& after.store.prices == before.store.prices
                &&& after.actions == before.actions + seq![Action::RequireAuth(source)] + steps
            }
            &&& after.store.admin == before.store.admin
            &&& after.store.providers == before.store.providers
            &&& after.timestamp == before.timestamp
            &&& after.deployment == before.deployment
        },
{
}

} // verus!
