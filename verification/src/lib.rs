//! A price oracle contract: prices of approved assets, submitted by whitelisted relayers, and
//! checks on the liquidity of the markets that they come from.
//!
//! The contract runs on a host that owns storage, time, authorisation and events. What the
//! contract decides stands in this crate, as functions on a [`ledger::Ledger`]: it holds the
//! storage entries that an invocation works on, and notes the actions that the host has to
//! carry out.
pub mod asset_symbol;
pub mod error;
pub mod laws;
pub mod ledger;
pub mod oracle;
pub mod percentage;
pub mod price_map;
pub mod promises;
mod table;
pub mod types;
pub mod validation;

pub use error::{ContractError, Error};
pub use oracle::{PriceOracle, SubmissionError};
pub use percentage::{calculate_percentage_change_bps, calculate_percentage_difference_bps};
pub use types::{Address, AdminChanged, PriceData, PriceUpdated, Symbol};
