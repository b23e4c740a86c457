//! A counter contract core: one global signed counter and one signed counter
//! per account, with checked arithmetic and contracts stated over a
//! mathematical model of the stored state.

pub mod account;
pub mod contract;
pub mod laws;
pub mod ledger;
pub mod state;

pub use crate::account::AccountId;
pub use crate::contract::Incrementer;
pub use crate::state::Error;
