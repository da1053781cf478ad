//! Accounting core of a fungible-token ledger.
//!
//! The ledger keeps a sparse balance table, a sparse allowance table and a
//! running total supply, and offers mint, burn, transfer, transfer-from and
//! allowance operations with checked arithmetic.  Every mutating operation
//! either fully commits and returns the change notifications it produced, or
//! fails and leaves the ledger untouched.  The central invariant, maintained
//! by every operation, is conservation: the total supply equals the sum of
//! all balances.

pub mod account;
pub mod allowances;
pub mod balances;
pub mod data;
pub mod errors;
pub mod events;
pub mod laws;
pub mod token;

pub use account::AccountId;
pub use data::PSP22Data;
pub use errors::PSP22Error;
pub use events::Approval;
pub use events::PSP22Event;
pub use events::Transfer;
pub use token::Token;
