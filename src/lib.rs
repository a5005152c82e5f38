//! Mirror of a banking API into a tree of newline-delimited JSON files:
//! the calendar arithmetic, on-disk layout and framing, token lifecycle,
//! job scheduling and HTTP envelope decisions, each with its contract.
use vstd::prelude::*;

pub mod bucketing;
pub mod calendar;
pub mod config;
pub mod consent;
pub mod http;
pub mod layout;
pub mod pool;
pub mod records;
pub mod store;
pub mod sync;
pub mod token;

pub use config::{MainConfig, ProviderConfig, ScraperConfig};
pub use http::Environment;
pub use layout::account_dir_name;
pub use pool::{JobPool, PoolStats};
pub use records::{
    AccountNumber, AccountsProvider, AccountsResult, CardsProvider, CardsResult, Response,
};
pub use token::ClientCreds;

verus! {

} // verus!
