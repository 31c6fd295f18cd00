//! A factory that provisions marketplace sub-accounts for their owners and
//! records each one once its creation pipeline is confirmed.
pub mod market_id;
pub mod registry;
pub mod contract;
pub mod laws;

pub use contract::{Contract, NewArgs};
pub use market_id::marketplace_id;
