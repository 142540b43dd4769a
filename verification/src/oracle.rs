//! The entry points of the price oracle contract.
use crate::asset_symbol::{is_approved, is_approved_asset_symbol};
use crate::error::{ContractError, Error};
use crate::ledger::{Ledger, LedgerView};
use crate::price_map::precedes;
use crate::types::{Action, Address, PriceData, PriceUpdated, Symbol};
use crate::validation::{after_validation, validate_liquidity, verdict};
use vstd::prelude::*;

verus! {

/// The age in seconds, 24 hours, beyond which a price is stale.
pub const STALE_AFTER_SECONDS: u64 = 86_400;

/// The price oracle contract.
pub struct PriceOracle;

/// Why a price that was submitted with the liquidity behind it was refused.
#[derive(Clone, Copy, Debug, PartialEq, Eq)]
pub enum SubmissionError {
    /// The liquidity was not accepted.
    Liquidity(ContractError),
    /// The price was not accepted.
    Price(Error),
}

/// The ledger after the admin was initialised.
pub open spec fn after_init_admin(ledger: LedgerView, address: Address) -> LedgerView {
    ledger.perform(Action::RequireAuth(address)).perform(Action::SetAdmin(address))
}

/// The ledger after the contract stored a price of its own accord.
pub open spec fn after_set_price(ledger: LedgerView, asset: Symbol, price: i128) -> LedgerView {
    ledger.perform(
        Action::StorePrice(
            asset,
            PriceData {
                price,
                timestamp: ledger.timestamp,
                provider: ledger.deployment.contract,
            },
        ),
    )
}

/// The ledger after a relayer's price was accepted: it is stored, then announced.
pub open spec fn after_accepting(
    ledger: LedgerView,
    source: Address,
    asset: Symbol,
    price: i128,
) -> LedgerView {
    let timestamp = ledger.timestamp;
    ledger.perform(
        Action::StorePrice(asset, PriceData { price, timestamp, provider: source }),
    ).perform(Action::PublishPrice(PriceUpdated { source, asset, price, timestamp }))
}

/// The ledger after a relayer updated the price of an approved asset: the relayer has to
/// authorise the update, then the price is accepted.
pub open spec fn after_update_price(
    ledger: LedgerView,
    source: Address,
    asset: Symbol,
    price: i128,
) -> LedgerView {
    after_accepting(ledger.perform(Action::RequireAuth(source)), source, asset, price)
}

/// Whether a price is stale at a given time: older than 24 hours.
pub open spec fn is_stale(now: u64, timestamp: u64) -> bool {
    now - timestamp > STALE_AFTER_SECONDS
}

/// The answer to a price that is submitted with the liquidity behind it.
pub open spec fn submission_verdict(
    ledger: LedgerView,
    asset: Symbol,
    reported_liquidity: i128,
) -> Result<(), SubmissionError> {
    if !is_approved(asset) {
        Err(SubmissionError::Price(Error::InvalidAssetSymbol))
    } else {
        match verdict(ledger.store.threshold(asset), reported_liquidity) {
            Err(error) => Err(SubmissionError::Liquidity(error)),
            Ok(_) => Ok(()),
        }
    }
}

/// The ledger after a price was submitted with the liquidity behind it. For an approved asset
/// the relayer has to authorise the submission, then the liquidity is validated, and the price
/// is accepted only if the liquidity is.
pub open spec fn after_submission(
    ledger: LedgerView,
    source: Address,
    asset: Symbol,
    price: i128,
    reported_liquidity: i128,
) -> LedgerView {
    let validated = after_validation(
        ledger.perform(Action::RequireAuth(source)),
        asset,
        source,
        reported_liquidity,
    );
    if !is_approved(asset) {
        ledger
    } else if submission_verdict(ledger, asset, reported_liquidity) is Ok {
        after_accepting(validated, source, asset, price)
    } else {
        validated
    }
}

/// Stores a relayer's price for an asset, and announces it.
fn accept_price(ledger: &mut Ledger, source: Address, asset: Symbol, price: i128)
    requires
        old(ledger).wf(),
        old(ledger)@.store.has_room_for(asset),
    ensures
        final(ledger).wf(),
        final(ledger)@ == after_accepting(old(ledger)@, source, asset, price),
{
    let timestamp: u64 = ledger.timestamp();
    ledger.perform(Action::StorePrice(asset, PriceData { price, timestamp, provider: source }));
    ledger.perform(Action::PublishPrice(PriceUpdated { source, asset, price, timestamp }));
}

impl PriceOracle {
    /// Initialises the contract admin once.
    ///
    /// A contract that has an admin must not be initialised again.
    pub fn init_admin(ledger: &mut Ledger, address: Address)
        requires
            old(ledger).wf(),
            old(ledger)@.store.admin is None,
        ensures
            final(ledger).wf(),
            old(ledger)@.store.admin is None,
            final(ledger)@ == after_init_admin(old(ledger)@, address),
    {
        ledger.perform(Action::RequireAuth(address));
        ledger.perform(Action::SetAdmin(address));
    }

    /// Gets the price data for a specific asset.
    pub fn get_price(ledger: &Ledger, asset: Symbol) -> (result: Result<PriceData, Error>)
        requires
            ledger.wf(),
        ensures
            match result {
                Ok(data) => ledger@.store.price(asset) == Some(data@),
                Err(error) => {
                    &&& ledger@.store.price(asset) is None
                    &&& error == Error::AssetNotFound
                },
            },
    {
        match ledger.price(&asset) {
            Some(price_data) => Ok(price_data),
            None => Err(Error::AssetNotFound),
        }
    }

    /// Returns `None` instead of an error when the asset is not found.
    pub fn get_price_safe(ledger: &Ledger, asset: Symbol) -> (price: Option<PriceData>)
        requires
            ledger.wf(),
        ensures
            match price {
                Some(data) => ledger@.store.price(asset) == Some(data@),
                None => ledger@.store.price(asset) is None,
            },
    {
        ledger.price(&asset)
    }

    /// Returns a vector of all currently tracked asset symbols, in the order of their names.
    pub fn get_all_assets(ledger: &Ledger) -> (assets: Vec<Symbol>)
        requires
            ledger.wf(),
        ensures
            forall|asset: Symbol|
                assets@.contains(asset) <==> #[trigger] ledger@.store.price(asset) is Some,
            forall|i: int, j: int|
                0 <= i < j < assets@.len() ==> precedes(
                    (#[trigger] assets@[i])@,
                    (#[trigger] assets@[j])@,
                ),
    {
        ledger.assets()
    }

    /// Returns true when a price timestamp is older than 24 hours.
    pub fn is_timestamp_stale(ledger: &Ledger, timestamp: u64) -> (stale: bool)
        ensures
            stale == is_stale(ledger@.timestamp, timestamp),
    {
        let current_timestamp: u64 = ledger.timestamp();
        current_timestamp > timestamp && current_timestamp - timestamp > STALE_AFTER_SECONDS
    }

    /// Sets the price data for a specific asset, with the contract itself as provider.
    pub fn set_price(ledger: &mut Ledger, asset: Symbol, val: i128) -> (result: Result<(), Error>)
        requires
            old(ledger).wf(),
            old(ledger)@.store.has_room_for(asset),
        ensures
            final(ledger).wf(),
            result == Ok::<(), Error>(()),
            final(ledger)@ == after_set_price(old(ledger)@, asset, val),
    {
        let price_data = PriceData {
            price: val,
            timestamp: ledger.timestamp(),
            provider: ledger.deployment().contract,
        };
        ledger.perform(Action::StorePrice(asset, price_data));
        Ok(())
    }

    /// Updates the price for a specific asset (authorized backend relayer function).
    ///
    /// An asset other than NGN, KES and GHS is refused with `InvalidAssetSymbol`. For an
    /// approved one `source` must be a whitelisted provider.
    pub fn update_price(
        ledger: &mut Ledger,
        source: Address,
        asset: Symbol,
        price: i128,
    ) -> (result: Result<(), Error>)
        requires
            old(ledger).wf(),
            is_approved(asset) ==> {
                &&& old(ledger)@.store.providers.contains(source)
                &&& old(ledger)@.store.has_room_for(asset)
            },
        ensures
            final(ledger).wf(),
            is_approved(asset) ==> {
                &&& old(ledger)@.store.providers.contains(source)
                &&& result == Ok::<(), Error>(())
                &&& final(ledger)@ == after_update_price(old(ledger)@, source, asset, price)
            },
            !is_approved(asset) ==> {
                &&& result == Err::<(), Error>(Error::InvalidAssetSymbol)
                &&& final(ledger)@ == old(ledger)@
            },
    {
        if !is_approved_asset_symbol(asset) {
            return Err(Error::InvalidAssetSymbol);
        }
        ledger.perform(Action::RequireAuth(source));
        accept_price(ledger, source, asset, price);
        Ok(())
    }

    /// Updates the price for a specific asset, as [`PriceOracle::update_price`] does, provided
    /// that the pool it comes from is liquid enough: a submission whose liquidity is not
    /// accepted is refused before its price is stored.
    pub fn update_price_with_liquidity(
        ledger: &mut Ledger,
        source: Address,
        asset: Symbol,
        price: i128,
        reported_liquidity: i128,
    ) -> (result: Result<(), SubmissionError>)
        requires
            old(ledger).wf(),
            is_approved(asset) ==> old(ledger)@.store.providers.contains(source),
            submission_verdict(old(ledger)@, asset, reported_liquidity) is Ok ==> old(
                ledger,
            )@.store.has_room_for(asset),
        ensures
            final(ledger).wf(),
            is_approved(asset) ==> old(ledger)@.store.providers.contains(source),
            result == submission_verdict(old(ledger)@, asset, reported_liquidity),
            final(ledger)@ == after_submission(
                old(ledger)@,
                source,
                asset,
                price,
                reported_liquidity,
            ),
    {
        if !is_approved_asset_symbol(asset) {
            return Err(SubmissionError::Price(Error::InvalidAssetSymbol));
        }
        ledger.perform(Action::RequireAuth(source));
        match validate_liquidity(ledger, &asset, &source, reported_liquidity) {
            Ok(()) => {},
            Err(error) => return Err(SubmissionError::Liquidity(error)),
        }
        accept_price(ledger, source, asset, price);
        Ok(())
    }

    /// Returns the enforced unbonding delay in ledgers.
    pub fn min_unbonding_delay_ledgers(ledger: &Ledger) -> (delay: u32)
        ensures
            delay == ledger@.deployment.min_unbonding_delay_ledgers,
    {
        ledger.deployment().min_unbonding_delay_ledgers
    }
}

} // verus!
