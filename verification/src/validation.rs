//! Liquidity volume validation: prevention of manipulation by flash loans.
//!
//! A price from a thinly backed market can be moved for a moment by borrowed capital. An asset
//! can therefore be given a minimum of pool liquidity, its threshold, and a submission whose
//! pool falls short of it is refused before its price is accepted.
//!
//! 1. The admin gives an asset a threshold.
//! 2. A provider submits a price together with the liquidity of the pool behind it.
//! 3. The liquidity is validated before the submission is accepted.
//! 4. A submission below the threshold is refused with `LiquidityBelowThreshold`.
use crate::error::ContractError;
use crate::ledger::{Ledger, LedgerView};
use crate::percentage::{
    abs, fits_i128, lemma_division_truncates, truncated_quotient, BASIS_POINTS,
};
use crate::types::{Action, Address, DataKey, LiquidityEvent, Symbol};
use vstd::prelude::*;

verus! {

/// Minimum allowed liquidity threshold (1 XLM equivalent = 10_000_000 stroops).
/// Prevents admins from setting unreasonably low thresholds that defeat the purpose.
pub const MIN_LIQUIDITY_THRESHOLD: i128 = 10_000_000;

/// Maximum reasonable liquidity threshold (1 billion XLM equivalent).
/// Prevents accidental misconfiguration that would reject all submissions.
pub const MAX_LIQUIDITY_THRESHOLD: i128 = 1_000_000_000_0000000;

/// Multiplier for low-liquidity slash penalty (basis points).
/// Applied when provider submits prices from pools below the threshold.
pub const LOW_LIQUIDITY_SLASH_MULTIPLIER: i128 = 5;

// Storage

/// Reads the minimum liquidity threshold for an asset.
/// Returns `None` if no threshold has been configured.
pub fn get_liquidity_threshold(ledger: &Ledger, asset: &Symbol) -> (threshold: Option<i128>)
    requires
        ledger.wf(),
    ensures
        threshold == ledger@.store.threshold(*asset),
{
    ledger.amount(&DataKey::LiquidityThreshold(*asset))
}

/// Sets the minimum liquidity threshold for an asset.
fn set_liquidity_threshold(ledger: &mut Ledger, asset: &Symbol, threshold: i128)
    requires
        old(ledger).wf(),
    ensures
        final(ledger).wf(),
        final(ledger)@ == old(ledger)@.perform(
            Action::SetAmount(DataKey::LiquidityThreshold(*asset), threshold),
        ),
{
    ledger.perform(Action::SetAmount(DataKey::LiquidityThreshold(*asset), threshold));
}

/// Reads the last reported liquidity from a specific provider for an asset.
/// Returns `None` if the provider has never reported liquidity for this asset.
pub fn get_provider_liquidity(
    ledger: &Ledger,
    provider: &Address,
    asset: &Symbol,
) -> (liquidity: Option<i128>)
    requires
        ledger.wf(),
    ensures
        liquidity == ledger@.store.amount(DataKey::ProviderReportedLiquidity(*provider, *asset)),
{
    ledger.amount(&DataKey::ProviderReportedLiquidity(*provider, *asset))
}

/// Stores the liquidity value reported by a provider for an asset.
fn set_provider_liquidity(
    ledger: &mut Ledger,
    provider: &Address,
    asset: &Symbol,
    liquidity: i128,
)
    requires
        old(ledger).wf(),
    ensures
        final(ledger).wf(),
        final(ledger)@ == old(ledger)@.perform(
            Action::SetAmount(DataKey::ProviderReportedLiquidity(*provider, *asset), liquidity),
        ),
{
    ledger.perform(
        Action::SetAmount(DataKey::ProviderReportedLiquidity(*provider, *asset), liquidity),
    );
}

/// Records the time of the ledger as that of the last successful validation for an asset.
fn set_last_validation_timestamp(ledger: &mut Ledger, asset: &Symbol)
    requires
        old(ledger).wf(),
    ensures
        final(ledger).wf(),
        final(ledger)@ == old(ledger)@.perform(
            Action::SetTime(DataKey::LastLiquidityValidation(*asset), old(ledger)@.timestamp),
        ),
{
    let timestamp: u64 = ledger.timestamp();
    ledger.perform(Action::SetTime(DataKey::LastLiquidityValidation(*asset), timestamp));
}

/// Reads the timestamp of the last successful liquidity validation for an asset.
pub fn get_last_validation_timestamp(ledger: &Ledger, asset: &Symbol) -> (timestamp: Option<u64>)
    requires
        ledger.wf(),
    ensures
        timestamp == ledger@.store.time(DataKey::LastLiquidityValidation(*asset)),
{
    ledger.time(&DataKey::LastLiquidityValidation(*asset))
}

// Validation

/// The answer to a report of liquidity, given the threshold of its asset.
pub open spec fn verdict(
    threshold: Option<i128>,
    reported_liquidity: i128,
) -> Result<(), ContractError> {
    if reported_liquidity <= 0 {
        Err(ContractError::InvalidLiquidity)
    } else if threshold matches Some(minimum) && reported_liquidity < minimum {
        Err(ContractError::LiquidityBelowThreshold)
    } else {
        Ok(())
    }
}

/// The ledger after a report of liquidity. Where it can be held against a threshold it is
/// recorded, and the outcome is published; a success is recorded with its time.
pub open spec fn after_validation(
    ledger: LedgerView,
    asset: Symbol,
    provider: Address,
    reported_liquidity: i128,
) -> LedgerView {
    let report = Action::SetAmount(
        DataKey::ProviderReportedLiquidity(provider, asset),
        reported_liquidity,
    );
    match ledger.store.threshold(asset) {
        Some(threshold) if reported_liquidity > 0 => if reported_liquidity < threshold {
            ledger.perform(
                Action::Publish(
                    LiquidityEvent::Violation { asset, provider, reported_liquidity, threshold },
                ),
            ).perform(report)
        } else {
            ledger.perform(report).perform(
                Action::SetTime(DataKey::LastLiquidityValidation(asset), ledger.timestamp),
            ).perform(
                Action::Publish(
                    LiquidityEvent::Validated { asset, provider, reported_liquidity, threshold },
                ),
            )
        },
        _ => ledger,
    }
}

/// Validates that reported pool liquidity meets the configured minimum threshold.
///
/// It is accepted if it meets or exceeds the threshold, and if there is no threshold: assets
/// without one continue to accept all submissions until governance configures them. It is
/// refused with `LiquidityBelowThreshold` if it is insufficient, and with `InvalidLiquidity`
/// if it is negative or zero.
pub fn validate_liquidity(
    ledger: &mut Ledger,
    asset: &Symbol,
    provider: &Address,
    reported_liquidity: i128,
) -> (result: Result<(), ContractError>)
    requires
        old(ledger).wf(),
    ensures
        final(ledger).wf(),
        result == verdict(old(ledger)@.store.threshold(*asset), reported_liquidity),
        final(ledger)@ == after_validation(old(ledger)@, *asset, *provider, reported_liquidity),
{
    // Reject negative or zero liquidity values.
    if reported_liquidity <= 0 {
        return Err(ContractError::InvalidLiquidity);
    }
    let threshold: i128 = match get_liquidity_threshold(ledger, asset) {
        Some(threshold) => threshold,
        None => return Ok(()),
    };
    if reported_liquidity < threshold {
        ledger.perform(
            Action::Publish(
                LiquidityEvent::Violation {
                    asset: *asset,
                    provider: *provider,
                    reported_liquidity,
                    threshold,
                },
            ),
        );
        // The insufficient value is kept for reputation tracking.
        set_provider_liquidity(ledger, provider, asset, reported_liquidity);
        return Err(ContractError::LiquidityBelowThreshold);
    }
    set_provider_liquidity(ledger, provider, asset, reported_liquidity);
    set_last_validation_timestamp(ledger, asset);
    ledger.perform(
        Action::Publish(
            LiquidityEvent::Validated {
                asset: *asset,
                provider: *provider,
                reported_liquidity,
                threshold,
            },
        ),
    );
    Ok(())
}

// Configuration

/// Whether a threshold is within the bounds that an admin may choose from.
pub open spec fn is_allowed_threshold(threshold: i128) -> bool {
    MIN_LIQUIDITY_THRESHOLD <= threshold <= MAX_LIQUIDITY_THRESHOLD
}

/// The ledger after an asset was given a threshold.
pub open spec fn with_threshold(ledger: LedgerView, asset: Symbol, threshold: i128) -> LedgerView {
    ledger.perform(Action::SetAmount(DataKey::LiquidityThreshold(asset), threshold)).perform(
        Action::Publish(LiquidityEvent::ThresholdSet { asset, threshold }),
    )
}

/// The ledger after the threshold of an asset was taken away.
pub open spec fn without_threshold(ledger: LedgerView, asset: Symbol) -> LedgerView {
    ledger.perform(Action::RemoveAmount(DataKey::LiquidityThreshold(asset))).perform(
        Action::Publish(LiquidityEvent::ThresholdRemoved { asset }),
    )
}

/// Sets the liquidity threshold of an asset, within the allowed bounds.
///
/// Called after authorization checks. A threshold below [`MIN_LIQUIDITY_THRESHOLD`] or above
/// [`MAX_LIQUIDITY_THRESHOLD`] is refused with `InvalidLiquidityThreshold`.
pub fn set_liquidity_threshold_internal(
    ledger: &mut Ledger,
    asset: &Symbol,
    threshold: i128,
) -> (result: Result<(), ContractError>)
    requires
        old(ledger).wf(),
    ensures
        final(ledger).wf(),
        is_allowed_threshold(threshold) ==> {
            &&& result == Ok::<(), ContractError>(())
            &&& final(ledger)@ == with_threshold(old(ledger)@, *asset, threshold)
        },
        !is_allowed_threshold(threshold) ==> {
            &&& result == Err::<(), ContractError>(ContractError::InvalidLiquidityThreshold)
            &&& final(ledger)@ == old(ledger)@
        },
{
    if threshold < MIN_LIQUIDITY_THRESHOLD {
        return Err(ContractError::InvalidLiquidityThreshold);
    }
    if threshold > MAX_LIQUIDITY_THRESHOLD {
        return Err(ContractError::InvalidLiquidityThreshold);
    }
    set_liquidity_threshold(ledger, asset, threshold);
    ledger.perform(Action::Publish(LiquidityEvent::ThresholdSet { asset: *asset, threshold }));
    Ok(())
}

/// Removes the liquidity threshold for an asset.
///
/// After removal, submissions for this asset no longer undergo liquidity validation. Use with
/// caution: it exposes the contract to flash loan manipulation again.
pub fn remove_liquidity_threshold_internal(ledger: &mut Ledger, asset: &Symbol)
    requires
        old(ledger).wf(),
    ensures
        final(ledger).wf(),
        final(ledger)@ == without_threshold(old(ledger)@, *asset),
{
    ledger.perform(Action::RemoveAmount(DataKey::LiquidityThreshold(*asset)));
    ledger.perform(Action::Publish(LiquidityEvent::ThresholdRemoved { asset: *asset }));
}

// Slashing

/// Whether liquidity is at least `bps` basis points of the threshold. Against a threshold
/// below zero both count downwards from zero.
pub open spec fn reaches_bps(reported_liquidity: int, threshold: int, bps: int) -> bool {
    if threshold > 0 {
        reported_liquidity * BASIS_POINTS >= bps * threshold
    } else {
        reported_liquidity * BASIS_POINTS <= bps * threshold
    }
}

/// How many times the base penalty a report of liquidity costs.
pub open spec fn slash_multiplier(reported_liquidity: int, threshold: int) -> int {
    if threshold == 0 || reaches_bps(reported_liquidity, threshold, 10_000) {
        1
    } else if reaches_bps(reported_liquidity, threshold, 7_500) {
        2
    } else if reaches_bps(reported_liquidity, threshold, 5_000) {
        4
    } else if reaches_bps(reported_liquidity, threshold, 2_500) {
        8
    } else {
        16
    }
}

/// Whether the share of the threshold that was reported can be computed: the report, in basis
/// points, does not leave the range of `i128`, or there is nothing to compare it with.
pub open spec fn share_is_defined(reported_liquidity: int, threshold: int) -> bool {
    threshold == 0 || fits_i128(reported_liquidity * BASIS_POINTS)
}

/// A quotient that is rounded towards zero reaches a positive bound exactly if the exact
/// quotient does.
proof fn lemma_quotient_reaches(scaled: int, threshold: int, quotient: int, bound: int)
    requires
        threshold != 0,
        quotient == truncated_quotient(scaled, threshold),
        bound > 0,
    ensures
        quotient >= bound <==> (if threshold > 0 {
            scaled >= bound * threshold
        } else {
            scaled <= bound * threshold
        }),
{
    let n = abs(scaled);
    let m = abs(threshold);
    assert(n / m >= bound <==> n >= bound * m) by (nonlinear_arith)
        requires
            n >= 0,
            m >= 1,
            bound > 0,
    ;
    assert(n / m >= 0) by (nonlinear_arith)
        requires
            n >= 0,
            m >= 1,
    ;
    assert(bound * m > 0) by (nonlinear_arith)
        requires
            m >= 1,
            bound > 0,
    ;
    assert(bound * threshold == (if threshold > 0 {
        bound * m
    } else {
        -(bound * m)
    })) by (nonlinear_arith)
        requires
            m == (if threshold < 0 {
                -threshold
            } else {
                threshold
            }),
            threshold != 0,
    ;
}

/// Calculates the additional slash penalty for low-liquidity submissions.
///
/// Providers who repeatedly submit prices from thin markets receive graduated penalties, on
/// top of the standard deviation-based slashing. By liquidity as a share of the threshold:
/// - 100 % and more: no penalty (1x)
/// - from 75 %: minor penalty (2x)
/// - from 50 %: moderate penalty (4x)
/// - from 25 %: significant penalty (8x)
/// - below 25 %: severe penalty (16x)
pub fn calculate_liquidity_slash_multiplier(
    reported_liquidity: i128,
    threshold: i128,
) -> (multiplier: i128)
    requires
        share_is_defined(reported_liquidity as int, threshold as int),
    ensures
        multiplier == slash_multiplier(reported_liquidity as int, threshold as int),
{
    if threshold == 0 {
        return 1;
    }
    let scaled: i128 = reported_liquidity * BASIS_POINTS;
    // 2^127 is no multiple of 10 000, so the scaled report cannot be `i128::MIN`.
    assert(scaled != i128::MIN);
    let percentage: i128 = scaled / threshold;
    proof {
        lemma_division_truncates(scaled, threshold);
        lemma_quotient_reaches(scaled as int, threshold as int, percentage as int, 10_000);
        lemma_quotient_reaches(scaled as int, threshold as int, percentage as int, 7_500);
        lemma_quotient_reaches(scaled as int, threshold as int, percentage as int, 5_000);
        lemma_quotient_reaches(scaled as int, threshold as int, percentage as int, 2_500);
    }
    if percentage >= 10_000 {
        1
    } else if percentage >= 7_500 {
        2
    } else if percentage >= 5_000 {
        4
    } else if percentage >= 2_500 {
        8
    } else {
        16
    }
}

/// A penalty that the slashing engine is to execute.
#[derive(Clone, Copy, Debug, PartialEq, Eq)]
pub struct SlashOrder {
    /// Admin executing the slash.
    pub executor: Address,
    /// The relayer being penalized.
    pub provider: Address,
    /// The configured minimum that the report is held against.
    pub threshold: i128,
    /// How many times the base penalty is due.
    pub multiplier: i128,
    /// What is to be deducted from the provider's stake.
    pub amount: i128,
}

/// The penalty for a report of liquidity, or why there can be none.
pub open spec fn slash_order(
    threshold: Option<i128>,
    executor: Address,
    provider: Address,
    reported_liquidity: i128,
    base_slash_amount: i128,
) -> Result<SlashOrder, ContractError> {
    match threshold {
        None => Err(ContractError::InvalidLiquidityThreshold),
        Some(threshold) => {
            let multiplier = slash_multiplier(reported_liquidity as int, threshold as int);
            if fits_i128(base_slash_amount * multiplier) {
                Ok(
                    SlashOrder {
                        executor,
                        provider,
                        threshold,
                        multiplier: multiplier as i128,
                        amount: (base_slash_amount * multiplier) as i128,
                    },
                )
            } else {
                Err(ContractError::InvalidSlashAmount)
            }
        },
    }
}

/// Works out the penalty for a submission from a thin market, for the slashing engine to
/// execute.
///
/// It is refused with `InvalidLiquidityThreshold` if the asset has no threshold, and with
/// `InvalidSlashAmount` if the scaled amount is too large.
pub fn plan_low_liquidity_slash(
    ledger: &Ledger,
    executor: &Address,
    provider: &Address,
    asset: &Symbol,
    reported_liquidity: i128,
    base_slash_amount: i128,
) -> (order: Result<SlashOrder, ContractError>)
    requires
        ledger.wf(),
        ledger@.store.threshold(*asset) matches Some(threshold) ==> share_is_defined(
            reported_liquidity as int,
            threshold as int,
        ),
    ensures
        order == slash_order(
            ledger@.store.threshold(*asset),
            *executor,
            *provider,
            reported_liquidity,
            base_slash_amount,
        ),
{
    let threshold: i128 = match get_liquidity_threshold(ledger, asset) {
        Some(threshold) => threshold,
        None => return Err(ContractError::InvalidLiquidityThreshold),
    };
    let multiplier: i128 = calculate_liquidity_slash_multiplier(reported_liquidity, threshold);
    match base_slash_amount.checked_mul(multiplier) {
        Some(amount) => Ok(
            SlashOrder {
                executor: *executor,
                provider: *provider,
                threshold,
                multiplier,
                amount,
            },
        ),
        None => Err(ContractError::InvalidSlashAmount),
    }
}

/// The answer to a request for slashing, given the penalty and whether it was executed.
pub open spec fn slash_verdict(
    order: Result<SlashOrder, ContractError>,
    executed: bool,
) -> Result<(), ContractError> {
    match order {
        Err(error) => Err(error),
        Ok(_) => if executed {
            Ok(())
        } else {
            Err(ContractError::InsufficientStake)
        },
    }
}

/// The ledger after a request for slashing: an executed penalty is published.
pub open spec fn after_slash(
    ledger: LedgerView,
    order: Result<SlashOrder, ContractError>,
    asset: Symbol,
    reported_liquidity: i128,
    executed: bool,
) -> LedgerView {
    match order {
        Ok(order) if executed => ledger.perform(
            Action::Publish(
                LiquidityEvent::SlashExecuted {
                    provider: order.provider,
                    asset,
                    reported_liquidity,
                    threshold: order.threshold,
                    multiplier: order.multiplier,
                    amount: order.amount,
                },
            ),
        ),
        _ => ledger,
    }
}

/// Reports a liquidity violation and applies graduated slashing.
///
/// Called by monitoring systems or governance when a provider is detected submitting prices
/// from pools below the configured liquidity threshold. The penalty is the one that
/// [`plan_low_liquidity_slash`] works out; `executed` tells whether the slashing engine has
/// deducted it from the provider's stake, and does not matter where there is no penalty. If
/// the engine could not, the answer is `InsufficientStake`.
pub fn slash_for_low_liquidity(
    ledger: &mut Ledger,
    executor: &Address,
    provider: &Address,
    asset: &Symbol,
    reported_liquidity: i128,
    base_slash_amount: i128,
    executed: bool,
) -> (result: Result<(), ContractError>)
    requires
        old(ledger).wf(),
        old(ledger)@.store.threshold(*asset) matches Some(threshold) ==> share_is_defined(
            reported_liquidity as int,
            threshold as int,
        ),
    ensures
        final(ledger).wf(),
        ({
            let order = slash_order(
                old(ledger)@.store.threshold(*asset),
                *executor,
                *provider,
                reported_liquidity,
                base_slash_amount,
            );
            &&& result == slash_verdict(order, executed)
            &&& final(ledger)@ == after_slash(
                old(ledger)@,
                order,
                *asset,
                reported_liquidity,
                executed,
            )
        }),
{
    let order: SlashOrder = match plan_low_liquidity_slash(
        ledger,
        executor,
        provider,
        asset,
        reported_liquidity,
        base_slash_amount,
    ) {
        Ok(order) => order,
        Err(error) => return Err(error),
    };
    if !executed {
        return Err(ContractError::InsufficientStake);
    }
    ledger.perform(
        Action::Publish(
            LiquidityEvent::SlashExecuted {
                provider: order.provider,
                asset: *asset,
                reported_liquidity,
                threshold: order.threshold,
                multiplier: order.multiplier,
                amount: order.amount,
            },
        ),
    );
    Ok(())
}

} // verus!
