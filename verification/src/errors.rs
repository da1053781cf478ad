use vstd::prelude::*;

verus! {

/// The ledger's error taxonomy.
///
/// Every failing operation returns one of these and leaves the ledger
/// unchanged.  `Custom` carries no ledger semantics: it is reserved for the
/// host adapter (for example, an authorization failure) so that adapter
/// errors fit in the same result type.
#[derive(Debug, PartialEq, Eq)]
pub enum PSP22Error {
    /// An adapter-level error, carrying the adapter's message.
    Custom(String),
    /// A debit would take a balance below zero.
    InsufficientBalance,
    /// A spend or decrease would take an allowance below zero.
    InsufficientAllowance,
    /// A checked addition would exceed `u128::MAX`.
    Overflow,
}

} // verus!
