use vstd::prelude::*;

verus! {

use crate::account::AccountId;

/// A balance movement notification.
///
/// `from == None` marks a mint (value created from nothing);
/// `to == None` marks a burn (value destroyed).
#[derive(Clone, Copy, PartialEq, Eq, Debug)]
pub struct Transfer {
    pub from: Option<AccountId>,
    pub to: Option<AccountId>,
    pub value: u128,
}

/// An allowance change notification, carrying the new absolute amount.
#[derive(Clone, Copy, PartialEq, Eq, Debug)]
pub struct Approval {
    pub owner: AccountId,
    pub spender: AccountId,
    pub amount: u128,
}

/// A change notification returned by a mutating ledger operation.
///
/// Notifications are produced, not persisted: the host adapter forwards
/// them to its platform event log.
#[derive(Clone, Copy, PartialEq, Eq, Debug)]
pub enum PSP22Event {
    Transfer(Transfer),
    Approval(Approval),
}

} // verus!
