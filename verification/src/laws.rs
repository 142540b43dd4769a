//! What holds of the oracle as a whole.
//!
//! The proof functions of this module relate the operations of the crate to each other. They
//! speak of the same descriptions that the operations' own contracts are stated over.
use crate::asset_symbol::is_approved;
use crate::error::{ContractError, Error};
use crate::ledger::{LedgerView, Store};
use crate::oracle::{
    after_accepting, after_init_admin, after_set_price, after_submission, after_update_price, is_stale,
    submission_verdict,
};
use crate::percentage::{abs, change_bps, change_is_defined, BASIS_POINTS};
use crate::types::{
    is_symbol_byte, is_symbol_text, is_unpadded, padded, Action, Address, DataKey, LiquidityEvent, PriceData, PriceUpdated,
    Symbol, SYMBOL_LIMIT,
};
use crate::validation::{
    after_slash, after_validation, is_allowed_threshold, share_is_defined, slash_multiplier,
    slash_order, slash_verdict, verdict, with_threshold, without_threshold, SlashOrder,
};
use vstd::prelude::*;

verus! {

// The journal of actions

/// The storage after the host has carried out a sequence of actions, in order.
pub open spec fn replay(store: Store, actions: Seq<Action>) -> Store
    decreases actions.len(),
{
    if actions.len() == 0 {
        store
    } else {
        replay(store, actions.drop_last()).after(actions.last())
    }
}

/// Whether `after` came from `before` by noting `actions`, and shows the storage that the host
/// arrives at by carrying them out.
pub open spec fn advances_by(before: LedgerView, actions: Seq<Action>, after: LedgerView) -> bool {
    &&& after.timestamp == before.timestamp
    &&& after.deployment == before.deployment
    &&& after.actions == before.actions + actions
    &&& after.store == replay(before.store, actions)
}

/// Whether `after` came from `before` by noting some actions and nothing else.
pub open spec fn advances(before: LedgerView, after: LedgerView) -> bool {
    exists|actions: Seq<Action>| advances_by(before, actions, after)
}

/// A ledger that nothing was done to has advanced by no action.
proof fn lemma_advances_by_nothing(ledger: LedgerView)
    ensures
        advances_by(ledger, Seq::empty(), ledger),
{
    assert(ledger.actions + Seq::<Action>::empty() =~= ledger.actions);
}

/// One more action advances a ledger by one more action.
proof fn lemma_advances_further(
    before: LedgerView,
    actions: Seq<Action>,
    ledger: LedgerView,
    action: Action,
)
    requires
        advances_by(before, actions, ledger),
    ensures
        advances_by(before, actions.push(action), ledger.perform(action)),
{
    assert(actions.push(action).drop_last() =~= actions);
    assert((before.actions + actions).push(action) =~= before.actions + actions.push(action));
}

/// One action advances a ledger by that action.
proof fn lemma_advances_by_one(ledger: LedgerView, a: Action)
    ensures
        advances_by(ledger, seq![a], ledger.perform(a)),
{
    lemma_advances_by_nothing(ledger);
    lemma_advances_further(ledger, Seq::empty(), ledger, a);
    assert(Seq::<Action>::empty().push(a) =~= seq![a]);
}

/// Two actions advance a ledger by those actions.
proof fn lemma_advances_by_two(ledger: LedgerView, a: Action, b: Action)
    ensures
        advances_by(ledger, seq![a, b], ledger.perform(a).perform(b)),
{
    lemma_advances_by_one(ledger, a);
    lemma_advances_further(ledger, seq![a], ledger.perform(a), b);
    assert(seq![a].push(b) =~= seq![a, b]);
}

/// Three actions advance a ledger by those actions.
proof fn lemma_advances_by_three(ledger: LedgerView, a: Action, b: Action, c: Action)
    ensures
        advances_by(ledger, seq![a, b, c], ledger.perform(a).perform(b).perform(c)),
{
    lemma_advances_by_two(ledger, a, b);
    lemma_advances_further(ledger, seq![a, b], ledger.perform(a).perform(b), c);
    assert(seq![a, b].push(c) =~= seq![a, b, c]);
}

/// Replaying one sequence of actions after another is replaying both in a row.
proof fn lemma_replay_in_a_row(store: Store, a: Seq<Action>, b: Seq<Action>)
    ensures
        replay(store, a + b) == replay(replay(store, a), b),
    decreases b.len(),
{
    if b.len() == 0 {
        assert(a + b =~= a);
    } else {
        lemma_replay_in_a_row(store, a, b.drop_last());
        assert((a + b).drop_last() =~= a + b.drop_last());
        assert((a + b).last() == b.last());
    }
}

/// Advances add up: what happens in two calls can be carried out by the host after both.
pub proof fn law_advances_add_up(first: LedgerView, second: LedgerView, third: LedgerView)
    requires
        advances(first, second),
        advances(second, third),
    ensures
        advances(first, third),
{
    let a = choose|a: Seq<Action>| advances_by(first, a, second);
    let b = choose|b: Seq<Action>| advances_by(second, b, third);
    lemma_replay_in_a_row(first.store, a, b);
    assert(first.actions + a + b =~= first.actions + (a + b));
    assert(advances_by(first, a + b, third));
}

/// Whatever an operation does to the ledger, the actions that it notes say it all: a host that
/// carries them out in order arrives at the storage that the ledger shows.
pub proof fn law_actions_tell_all(
    ledger: LedgerView,
    address: Address,
    asset: Symbol,
    amount: i128,
    price: i128,
    order: Result<SlashOrder, ContractError>,
    executed: bool,
)
    ensures
        advances(ledger, after_validation(ledger, asset, address, amount)),
        advances(ledger, with_threshold(ledger, asset, amount)),
        advances(ledger, without_threshold(ledger, asset)),
        advances(ledger, after_init_admin(ledger, address)),
        advances(ledger, after_set_price(ledger, asset, price)),
        advances(ledger, after_update_price(ledger, address, asset, price)),
        advances(ledger, after_submission(ledger, address, asset, price, amount)),
        advances(ledger, after_slash(ledger, order, asset, amount, executed)),
{
    lemma_advances_by_nothing(ledger);
    if let Ok(order) = order {
        lemma_advances_by_one(
            ledger,
            Action::Publish(
                LiquidityEvent::SlashExecuted {
                    provider: order.provider,
                    asset,
                    reported_liquidity: amount,
                    threshold: order.threshold,
                    multiplier: order.multiplier,
                    amount: order.amount,
                },
            ),
        );
    }
    lemma_validation_advances(ledger, asset, address, amount);
    lemma_advances_by_two(
        ledger,
        Action::SetAmount(DataKey::LiquidityThreshold(asset), amount),
        Action::Publish(LiquidityEvent::ThresholdSet { asset, threshold: amount }),
    );
    lemma_advances_by_two(
        ledger,
        Action::RemoveAmount(DataKey::LiquidityThreshold(asset)),
        Action::Publish(LiquidityEvent::ThresholdRemoved { asset }),
    );
    lemma_advances_by_two(ledger, Action::RequireAuth(address), Action::SetAdmin(address));
    lemma_advances_by_one(
        ledger,
        Action::StorePrice(
            asset,
            PriceData {
                price,
                timestamp: ledger.timestamp,
                provider: ledger.deployment.contract,
            },
        ),
    );
    let authorised = ledger.perform(Action::RequireAuth(address));
    lemma_advances_by_one(ledger, Action::RequireAuth(address));
    lemma_accepting_advances(authorised, address, asset, price);
    law_advances_add_up(ledger, authorised, after_accepting(authorised, address, asset, price));
    let validated = after_validation(authorised, asset, address, amount);
    lemma_validation_advances(authorised, asset, address, amount);
    law_advances_add_up(ledger, authorised, validated);
    lemma_accepting_advances(validated, address, asset, price);
    law_advances_add_up(ledger, validated, after_accepting(validated, address, asset, price));
}

/// A validation advances the ledger.
proof fn lemma_validation_advances(
    ledger: LedgerView,
    asset: Symbol,
    provider: Address,
    reported_liquidity: i128,
)
    ensures
        advances(ledger, after_validation(ledger, asset, provider, reported_liquidity)),
{
    let report = Action::SetAmount(
        DataKey::ProviderReportedLiquidity(provider, asset),
        reported_liquidity,
    );
    lemma_advances_by_nothing(ledger);
    if let Some(threshold) = ledger.store.threshold(asset) {
        let refused = Action::Publish(
            LiquidityEvent::Violation {
                asset,
                provider,
                reported_liquidity,
                threshold,
            },
        );
        let accepted = Action::Publish(
            LiquidityEvent::Validated {
                asset,
                provider,
                reported_liquidity,
                threshold,
            },
        );
        lemma_advances_by_two(ledger, refused, report);
        lemma_advances_by_three(
            ledger,
            report,
            Action::SetTime(DataKey::LastLiquidityValidation(asset), ledger.timestamp),
            accepted,
        );
    }
}

/// Accepting a price advances the ledger.
proof fn lemma_accepting_advances(ledger: LedgerView, source: Address, asset: Symbol, price: i128)
    ensures
        advances(ledger, after_accepting(ledger, source, asset, price)),
{
    let timestamp = ledger.timestamp;
    lemma_advances_by_two(
        ledger,
        Action::StorePrice(asset, PriceData { price, timestamp, provider: source }),
        Action::PublishPrice(PriceUpdated { source, asset, price, timestamp }),
    );
}

// Thresholds

/// A threshold reads back as it was set, and an asset whose threshold was removed has none.
pub proof fn law_threshold_reads_back(ledger: LedgerView, asset: Symbol, threshold: i128)
    ensures
        with_threshold(ledger, asset, threshold).store.threshold(asset) == Some(threshold),
        without_threshold(ledger, asset).store.threshold(asset) is None,
{
}

/// Different assets can have different requirements: what is set or removed for one asset
/// changes neither the threshold of another nor the answer to a report on it.
pub proof fn law_thresholds_are_per_asset(
    ledger: LedgerView,
    asset: Symbol,
    other: Symbol,
    threshold: i128,
    reported_liquidity: i128,
)
    requires
        asset != other,
    ensures
        with_threshold(ledger, asset, threshold).store.threshold(other) == ledger.store.threshold(
            other,
        ),
        without_threshold(ledger, asset).store.threshold(other) == ledger.store.threshold(other),
        verdict(
            with_threshold(ledger, asset, threshold).store.threshold(other),
            reported_liquidity,
        ) == verdict(ledger.store.threshold(other), reported_liquidity),
{
}

/// Once an asset has an allowed threshold, a report on it is accepted exactly if it meets or
/// exceeds the threshold, and refused as invalid exactly if it is negative or zero.
pub proof fn law_threshold_decides(
    ledger: LedgerView,
    asset: Symbol,
    threshold: i128,
    reported_liquidity: i128,
)
    requires
        is_allowed_threshold(threshold),
    ensures
        ({
            let answer = verdict(
                with_threshold(ledger, asset, threshold).store.threshold(asset),
                reported_liquidity,
            );
            &&& answer is Ok <==> reported_liquidity >= threshold
            &&& answer == Err::<(), ContractError>(ContractError::LiquidityBelowThreshold) <==> 0
                < reported_liquidity < threshold
            &&& answer == Err::<(), ContractError>(ContractError::InvalidLiquidity)
                <==> reported_liquidity <= 0
        }),
{
}

/// Where no threshold is configured, every positive report passes and leaves no trace: assets
/// accept all submissions until governance configures them, and again after removal.
pub proof fn law_unconfigured_assets_pass(
    ledger: LedgerView,
    asset: Symbol,
    provider: Address,
    reported_liquidity: i128,
)
    requires
        reported_liquidity > 0,
    ensures
        ledger.store.threshold(asset) is None ==> {
            &&& verdict(ledger.store.threshold(asset), reported_liquidity) is Ok
            &&& after_validation(ledger, asset, provider, reported_liquidity) == ledger
        },
        ({
            let removed = without_threshold(ledger, asset);
            &&& verdict(removed.store.threshold(asset), reported_liquidity) is Ok
            &&& after_validation(removed, asset, provider, reported_liquidity) == removed
        }),
{
}

/// More liquidity is never refused where less was accepted, and a lower threshold never
/// refuses what a higher one accepted.
pub proof fn law_verdict_is_monotone(low: i128, high: i128, reported: i128, more: i128)
    requires
        low <= high,
        reported <= more,
        verdict(Some(high), reported) is Ok,
    ensures
        verdict(Some(low), more) is Ok,
{
}

/// Whether every configured threshold is within the allowed bounds.
pub open spec fn thresholds_allowed(store: Store) -> bool {
    forall|asset: Symbol|
        #[trigger] store.threshold(asset) matches Some(threshold) ==> is_allowed_threshold(
            threshold,
        )
}

/// Thresholds that are within the allowed bounds stay there, whatever is done.
pub proof fn law_thresholds_stay_allowed(
    ledger: LedgerView,
    address: Address,
    asset: Symbol,
    threshold: i128,
    reported_liquidity: i128,
    price: i128,
    order: Result<SlashOrder, ContractError>,
    executed: bool,
)
    requires
        thresholds_allowed(ledger.store),
    ensures
        is_allowed_threshold(threshold) ==> thresholds_allowed(
            with_threshold(ledger, asset, threshold).store,
        ),
        thresholds_allowed(without_threshold(ledger, asset).store),
        thresholds_allowed(after_validation(ledger, asset, address, reported_liquidity).store),
        thresholds_allowed(after_init_admin(ledger, address).store),
        thresholds_allowed(after_set_price(ledger, asset, price).store),
        thresholds_allowed(after_update_price(ledger, address, asset, price).store),
        thresholds_allowed(
            after_submission(ledger, address, asset, price, reported_liquidity).store,
        ),
        thresholds_allowed(
            after_slash(ledger, order, asset, reported_liquidity, executed).store,
        ),
{
    let set = with_threshold(ledger, asset, threshold).store;
    assert forall|a: Symbol| is_allowed_threshold(threshold) && #[trigger] set.threshold(a) matches Some(
        t,
    ) implies is_allowed_threshold(set.threshold(a).unwrap()) by {
        assert(a != asset ==> set.threshold(a) == ledger.store.threshold(a));
    }
    let removed = without_threshold(ledger, asset).store;
    assert forall|a: Symbol| #[trigger] removed.threshold(a) matches Some(
        t,
    ) implies is_allowed_threshold(removed.threshold(a).unwrap()) by {
        assert(removed.threshold(a) == ledger.store.threshold(a));
    }
    let validated = after_validation(ledger, asset, address, reported_liquidity).store;
    assert forall|a: Symbol| #[trigger] validated.threshold(a) == ledger.store.threshold(a) by {}
    let initialised = after_init_admin(ledger, address).store;
    assert forall|a: Symbol| #[trigger] initialised.threshold(a) == ledger.store.threshold(a) by {}
    let stored = after_set_price(ledger, asset, price).store;
    assert forall|a: Symbol| #[trigger] stored.threshold(a) == ledger.store.threshold(a) by {}
    let updated = after_update_price(ledger, address, asset, price).store;
    assert forall|a: Symbol| #[trigger] updated.threshold(a) == ledger.store.threshold(a) by {}
    let submitted = after_submission(ledger, address, asset, price, reported_liquidity).store;
    assert forall|a: Symbol| #[trigger] submitted.threshold(a) == ledger.store.threshold(a) by {}
    let slashed = after_slash(ledger, order, asset, reported_liquidity, executed).store;
    assert forall|a: Symbol| #[trigger] slashed.threshold(a) == ledger.store.threshold(a) by {}
}

// Validation

/// Every report that is held against a threshold is recorded for its provider and asset,
/// whether it was accepted or refused, and no other report and no threshold changes.
pub proof fn law_reports_are_tracked(
    ledger: LedgerView,
    asset: Symbol,
    provider: Address,
    reported_liquidity: i128,
    other: DataKey,
)
    requires
        ledger.store.threshold(asset) is Some,
        reported_liquidity > 0,
        other != DataKey::ProviderReportedLiquidity(provider, asset),
    ensures
        ({
            let after = after_validation(ledger, asset, provider, reported_liquidity).store;
            &&& after.amount(DataKey::ProviderReportedLiquidity(provider, asset)) == Some(
                reported_liquidity,
            )
            &&& after.amount(other) == ledger.store.amount(other)
        }),
{
}

/// A success against a threshold is recorded with the time of the ledger; a refusal, and a
/// report that no threshold stands against, leaves the recorded time as it was.
pub proof fn law_successes_are_dated(
    ledger: LedgerView,
    asset: Symbol,
    provider: Address,
    reported_liquidity: i128,
)
    ensures
        ({
            let key = DataKey::LastLiquidityValidation(asset);
            let after = after_validation(ledger, asset, provider, reported_liquidity).store;
            if ledger.store.threshold(asset) is Some && verdict(
                ledger.store.threshold(asset),
                reported_liquidity,
            ) is Ok {
                after.time(key) == Some(ledger.timestamp)
            } else {
                after.time(key) == ledger.store.time(key)
            }
        }),
{
}

/// A validation touches no price, no admin and no provider.
pub proof fn law_validation_keeps_prices(
    ledger: LedgerView,
    asset: Symbol,
    provider: Address,
    reported_liquidity: i128,
)
    ensures
        ({
            let after = after_validation(ledger, asset, provider, reported_liquidity).store;
            &&& after.prices == ledger.store.prices
            &&& after.admin == ledger.store.admin
            &&& after.providers == ledger.store.providers
        }),
{
}

/// Early termination: a submission that is refused changes no price, and one that is accepted
/// met the threshold of its asset and has become the price of the asset.
pub proof fn law_refused_submissions_change_no_price(
    ledger: LedgerView,
    source: Address,
    asset: Symbol,
    price: i128,
    reported_liquidity: i128,
)
    ensures
        ({
            let answer = submission_verdict(ledger, asset, reported_liquidity);
            let after = after_submission(ledger, source, asset, price, reported_liquidity).store;
            &&& answer is Err ==> after.prices == ledger.store.prices
            &&& answer is Ok ==> {
                &&& reported_liquidity > 0
                &&& ledger.store.threshold(asset) matches Some(threshold) ==> reported_liquidity
                    >= threshold
                &&& after.price(asset) == Some((price, ledger.timestamp, source@))
            }
        }),
{
}

// Penalties

/// The tiers of the penalty, by liquidity as a share of a positive threshold: none from 100 %,
/// twofold from 75 %, fourfold from 50 %, eightfold from 25 %, and sixteenfold below.
pub proof fn law_penalty_tiers(reported_liquidity: int, threshold: int)
    requires
        threshold > 0,
    ensures
        slash_multiplier(reported_liquidity, threshold) == 1 <==> reported_liquidity >= threshold,
        slash_multiplier(reported_liquidity, threshold) == 2 <==> 75 * threshold <= 100
            * reported_liquidity < 100 * threshold,
        slash_multiplier(reported_liquidity, threshold) == 4 <==> 50 * threshold <= 100
            * reported_liquidity < 75 * threshold,
        slash_multiplier(reported_liquidity, threshold) == 8 <==> 25 * threshold <= 100
            * reported_liquidity < 50 * threshold,
        slash_multiplier(reported_liquidity, threshold) == 16 <==> 100 * reported_liquidity < 25
            * threshold,
{
}

/// The multiplier is one of five, from 1 to 16.
pub proof fn law_multiplier_is_between_1_and_16(reported_liquidity: int, threshold: int)
    ensures
        ({
            let multiplier = slash_multiplier(reported_liquidity, threshold);
            multiplier == 1 || multiplier == 2 || multiplier == 4 || multiplier == 8 || multiplier
                == 16
        }),
{
}

/// Against a positive threshold, less liquidity never costs less.
pub proof fn law_penalty_is_graduated(less: int, more: int, threshold: int)
    requires
        threshold > 0,
        less <= more,
    ensures
        slash_multiplier(less, threshold) >= slash_multiplier(more, threshold),
{
}

/// A report that validation accepts costs nothing extra, and one that it refuses as too low
/// costs at least twice the base penalty.
pub proof fn law_penalty_matches_verdict(threshold: i128, reported_liquidity: i128)
    requires
        threshold > 0,
        reported_liquidity > 0,
    ensures
        verdict(Some(threshold), reported_liquidity) is Ok <==> slash_multiplier(
            reported_liquidity as int,
            threshold as int,
        ) == 1,
        verdict(Some(threshold), reported_liquidity) is Err <==> slash_multiplier(
            reported_liquidity as int,
            threshold as int,
        ) >= 2,
{
}

/// For every report that falls short of an allowed threshold the penalty can be worked out.
pub proof fn law_violations_can_be_priced(threshold: i128, reported_liquidity: i128)
    requires
        is_allowed_threshold(threshold),
        0 <= reported_liquidity < threshold,
    ensures
        share_is_defined(reported_liquidity as int, threshold as int),
{
}

/// A penalty is the base amount times the multiplier, so between the base amount and sixteen
/// times as much where the base amount is not negative.
pub proof fn law_penalty_scales_the_base(
    threshold: Option<i128>,
    executor: Address,
    provider: Address,
    reported_liquidity: i128,
    base_slash_amount: i128,
)
    requires
        base_slash_amount >= 0,
    ensures
        slash_order(
            threshold,
            executor,
            provider,
            reported_liquidity,
            base_slash_amount,
        ) matches Ok(order) ==> {
            &&& order.amount == base_slash_amount * order.multiplier
            &&& base_slash_amount <= order.amount <= 16 * base_slash_amount
        },
{
    if let Some(threshold) = threshold {
        law_multiplier_is_between_1_and_16(reported_liquidity as int, threshold as int);
    }
}

/// A slash changes nothing in the contract's storage, and it is announced exactly if it
/// succeeds.
pub proof fn law_slash_is_announced_on_success(
    ledger: LedgerView,
    order: Result<SlashOrder, ContractError>,
    asset: Symbol,
    reported_liquidity: i128,
    executed: bool,
)
    ensures
        ({
            let after = after_slash(ledger, order, asset, reported_liquidity, executed);
            &&& after.store == ledger.store
            &&& slash_verdict(order, executed) is Ok <==> after.actions.len()
                == ledger.actions.len() + 1
            &&& slash_verdict(order, executed) is Err <==> after == ledger
        }),
{
}

// Prices

/// A stored price reads back, with the time of the ledger and its provider, and the prices of
/// all other assets stay as they were.
pub proof fn law_price_reads_back(
    ledger: LedgerView,
    source: Address,
    asset: Symbol,
    price: i128,
    other: Symbol,
)
    requires
        other != asset,
    ensures
        after_set_price(ledger, asset, price).store.price(asset) == Some(
            (price, ledger.timestamp, ledger.deployment.contract@),
        ),
        after_set_price(ledger, asset, price).store.price(other) == ledger.store.price(other),
        after_update_price(ledger, source, asset, price).store.price(asset) == Some(
            (price, ledger.timestamp, source@),
        ),
        after_update_price(ledger, source, asset, price).store.price(other) == ledger.store.price(
            other,
        ),
{
    if asset@ == other@ {
        assert(asset.name =~= other.name);
    }
}

/// An asset is tracked from its first price on: storing a price adds its asset and drops none.
pub proof fn law_assets_stay_tracked(
    ledger: LedgerView,
    source: Address,
    asset: Symbol,
    price: i128,
)
    ensures
        after_set_price(ledger, asset, price).store.prices.dom()
            == ledger.store.prices.dom().insert(asset@),
        after_update_price(ledger, source, asset, price).store.prices.dom()
            == ledger.store.prices.dom().insert(asset@),
{
}

/// An update is authorised before anything is stored or announced.
pub proof fn law_update_is_authorised_first(
    ledger: LedgerView,
    source: Address,
    asset: Symbol,
    price: i128,
)
    ensures
        ({
            let start = ledger.actions.len() as int;
            let actions = after_update_price(ledger, source, asset, price).actions;
            &&& actions.take(start) == ledger.actions
            &&& actions[start] == Action::RequireAuth(source)
            &&& forall|i: int|
                start < i < actions.len() ==> !(#[trigger] actions[i] is RequireAuth)
        }),
{
    let actions = after_update_price(ledger, source, asset, price).actions;
    assert(actions.take(ledger.actions.len() as int) =~= ledger.actions);
}

/// A submission with liquidity is authorised before anything else is noted, whether it is
/// accepted or not; one for an asset that is not approved notes nothing.
pub proof fn law_submission_is_authorised_first(
    ledger: LedgerView,
    source: Address,
    asset: Symbol,
    price: i128,
    reported_liquidity: i128,
)
    ensures
        ({
            let start = ledger.actions.len() as int;
            let after = after_submission(ledger, source, asset, price, reported_liquidity);
            if is_approved(asset) {
                &&& after.actions.take(start) == ledger.actions
                &&& after.actions[start] == Action::RequireAuth(source)
            } else {
                after == ledger
            }
        }),
{
    let after = after_submission(ledger, source, asset, price, reported_liquidity);
    assert(is_approved(asset) ==> after.actions.take(ledger.actions.len() as int)
        =~= ledger.actions);
}

/// A price is fresh when it is stored, stays so for 24 hours, and is stale ever after.
pub proof fn law_prices_go_stale_after_a_day(
    ledger: LedgerView,
    source: Address,
    asset: Symbol,
    price: i128,
    later: u64,
)
    ensures
        after_set_price(ledger, asset, price).store.price(asset) matches Some(stored) && (is_stale(
            later,
            stored.1,
        ) <==> later > ledger.timestamp + 86_400),
        after_update_price(ledger, source, asset, price).store.price(asset) matches Some(stored)
            && (is_stale(later, stored.1) <==> later > ledger.timestamp + 86_400),
{
}

// Admin

/// The admin is initialised once: after that the contract has an admin for good, whatever is
/// done, so it cannot be initialised again.
pub proof fn law_admin_is_final(
    ledger: LedgerView,
    address: Address,
    asset: Symbol,
    amount: i128,
    price: i128,
    order: Result<SlashOrder, ContractError>,
    executed: bool,
)
    ensures
        after_init_admin(ledger, address).store.admin == Some(address),
        with_threshold(ledger, asset, amount).store.admin == ledger.store.admin,
        without_threshold(ledger, asset).store.admin == ledger.store.admin,
        after_validation(ledger, asset, address, amount).store.admin == ledger.store.admin,
        after_set_price(ledger, asset, price).store.admin == ledger.store.admin,
        after_update_price(ledger, address, asset, price).store.admin == ledger.store.admin,
        after_submission(ledger, address, asset, price, amount).store.admin
            == ledger.store.admin,
        after_slash(ledger, order, asset, amount, executed).store.admin == ledger.store.admin,
{
}

// Percentages

/// A price that stays the same has changed by nothing.
pub proof fn law_no_change_is_zero(price: i128)
    requires
        price != 0,
    ensures
        change_is_defined(price as int, price as int),
        change_bps(price as int, price as int) == 0,
{
    let m = abs(price as int);
    assert(0int / m == 0) by (nonlinear_arith)
        requires
            m >= 1,
    ;
}

/// From a positive price, a rise is never reported as a fall, nor a fall as a rise.
pub proof fn law_change_has_the_direction_of_the_move(old_price: int, new_price: int)
    requires
        old_price > 0,
    ensures
        new_price >= old_price ==> change_bps(old_price, new_price) >= 0,
        new_price <= old_price ==> change_bps(old_price, new_price) <= 0,
{
    let n = abs((new_price - old_price) * BASIS_POINTS);
    assert(n / old_price >= 0) by (nonlinear_arith)
        requires
            n >= 0,
            old_price > 0,
    ;
    if new_price == old_price {
        assert(0int / old_price == 0) by (nonlinear_arith)
            requires
                old_price > 0,
        ;
    }
}

/// The difference is the same for a rise and for a fall by the same amount.
pub proof fn law_difference_ignores_direction(price: int, step: int)
    requires
        price != 0,
    ensures
        abs(change_bps(price, price + step)) == abs(change_bps(price, price - step)),
{
    let n = abs(step * BASIS_POINTS);
    let m = abs(price);
    assert(n / m >= 0) by (nonlinear_arith)
        requires
            n >= 0,
            m >= 1,
    ;
}

/// A larger move never makes a smaller difference.
pub proof fn law_difference_grows_with_the_move(price: int, small: int, large: int)
    requires
        price != 0,
        abs(small) <= abs(large),
    ensures
        abs(change_bps(price, price + small)) <= abs(change_bps(price, price + large)),
{
    let a = abs(small * BASIS_POINTS);
    let b = abs(large * BASIS_POINTS);
    let m = abs(price);
    assert(0 <= a / m <= b / m) by (nonlinear_arith)
        requires
            0 <= a <= b,
            m >= 1,
    ;
}

// Names and numbers

/// What stands at each place of a padded text.
proof fn lemma_padded_at(text: Seq<u8>, i: int)
    requires
        0 <= i < SYMBOL_LIMIT,
    ensures
        padded(text)[i] == (if i < text.len() {
            text[i]
        } else {
            0u8
        }),
{
}

/// Different names make different symbols.
pub proof fn law_symbols_are_their_names(a: Seq<u8>, b: Seq<u8>)
    requires
        is_symbol_text(a),
        is_symbol_text(b),
        padded(a) == padded(b),
    ensures
        a == b,
{
    assert forall|i: int| 0 <= i < SYMBOL_LIMIT implies {
        &&& i < a.len() && i < b.len() ==> a[i] == b[i]
        &&& i < a.len() <==> i < b.len()
    } by {
        lemma_padded_at(a, i);
        lemma_padded_at(b, i);
        assert(i < a.len() ==> is_symbol_byte(a[i]));
        assert(i < b.len() ==> is_symbol_byte(b[i]));
    }
    if a.len() < b.len() {
        lemma_padded_at(a, a.len() as int);
        lemma_padded_at(b, a.len() as int);
    }
    if b.len() < a.len() {
        lemma_padded_at(a, b.len() as int);
        lemma_padded_at(b, b.len() as int);
    }
    assert(a =~= b);
}

/// The name that a symbol was made with is the name that it gives back.
pub proof fn law_symbols_give_their_names_back(name: Seq<u8>, text: Seq<u8>)
    requires
        is_symbol_text(name),
        is_unpadded(text, padded(name)),
    ensures
        text == name,
{
    assert forall|i: int| 0 <= i < text.len() implies i < name.len() && text[i] == name[i] by {
        lemma_padded_at(name, i);
        assert(text[i] == padded(name)[i]);
    }
    if text.len() > name.len() {
        assert(text[name.len() as int] == padded(name)[name.len() as int]);
    }
    if text.len() < name.len() {
        lemma_padded_at(name, text.len() as int);
        assert(is_symbol_byte(name[text.len() as int]));
    }
    assert(text =~= name);
}

/// Different errors are reported under different numbers.
pub proof fn law_error_codes_are_distinct(a: Error, b: Error)
    requires
        a.spec_code() == b.spec_code(),
    ensures
        a == b,
{
}

} // verus!
