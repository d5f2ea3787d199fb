//! A fungible token ledger: balances, a one-time supply initialization and
//! delegated spending through allowances, written as a deterministic state
//! machine whose every transition is proved against a mathematical model.
pub mod model;
pub mod pallet;
pub mod laws;

pub use model::{Error, Event, LedgerState};
pub use pallet::Pallet;
