use vstd::prelude::*;

verus! {

use crate::account::AccountId;
use crate::data::allowance_set;
use crate::data::approval_events;
use crate::data::burn_events;
use crate::data::burned;
use crate::data::mint_events;
use crate::data::minted;
use crate::data::transfer_events;
use crate::data::transfer_from_events;
use crate::data::transferred;
use crate::data::transferred_from;
use crate::data::PSP22Data;
use crate::errors::PSP22Error;
use crate::events::PSP22Event;

/// The token: the verified ledger together with its descriptive metadata
/// and the single account (`bond`) allowed to mint and burn.
///
/// The host resolves the calling account and passes it in as `caller`,
/// and forwards the returned notifications to its own event log.
pub struct Token {
    pub data: PSP22Data,
    pub name: Option<String>,
    pub symbol: Option<String>,
    pub bond: AccountId,
    pub decimals: u8,
}

/// Everything but the ledger is unchanged between `pre` and `post`.
pub open spec fn metadata_unchanged(pre: Token, post: Token) -> bool {
    &&& post.name == pre.name
    &&& post.symbol == pre.symbol
    &&& post.bond == pre.bond
    &&& post.decimals == pre.decimals
}

impl Token {
    pub open spec fn wf(self) -> bool {
        self.data.wf()
    }

    /// Creates a token with an empty ledger, the given metadata, and
    /// `bond` as the only account allowed to mint and burn.
    pub fn new(name: Option<String>, symbol: Option<String>, bond: AccountId) -> (t: Token)
        ensures
            t.wf(),
            t.data.spec_supply() == 0,
            forall|a: AccountId| t.data.spec_balance(a) == 0,
            forall|o: AccountId, s: AccountId| t.data.spec_allowance(o, s) == 0,
            t.name == name,
            t.symbol == symbol,
            t.bond == bond,
            t.decimals == 12,
    {
        Token { data: PSP22Data::default(), name, symbol, bond, decimals: 12 }
    }

    /// Admits only the bond account; any other caller gets the adapter's
    /// authorization error.
    fn only_bond(&self, caller: AccountId) -> (r: Result<(), PSP22Error>)
        ensures
            r is Ok <==> caller == self.bond,
            r matches Err(e) ==> (e matches PSP22Error::Custom(m) && m@ == "Not Permission"@),
    {
        if caller != self.bond {
            return Err(PSP22Error::Custom(String::from_str("Not Permission")));
        }
        Ok(())
    }

    /// Mints `value` onto `to`'s balance; only the bond account may call.
    pub fn mint(&mut self, caller: AccountId, to: AccountId, value: u128) -> (r: Result<
        (),
        PSP22Error,
    >)
        requires
            old(self).wf(),
        ensures
            final(self).wf(),
            metadata_unchanged(*old(self), *final(self)),
            caller != old(self).bond ==> (*final(self) == *old(self) && (r matches Err(e)
                && e matches PSP22Error::Custom(m) && m@ == "Not Permission"@)),
            caller == old(self).bond && old(self).data.spec_supply() + value > u128::MAX
                ==> (*final(self) == *old(self) && r == Err::<(), PSP22Error>(PSP22Error::Overflow)),
            caller == old(self).bond && old(self).data.spec_supply() + value <= u128::MAX ==> (r
                is Ok && minted(old(self).data, final(self).data, to, value)),
    {
        match self.only_bond(caller) {
            Ok(_) => {},
            Err(e) => {
                return Err(e);
            },
        }
        match self.data.mint(to, value) {
            Ok(_) => Ok(()),
            Err(e) => Err(e),
        }
    }

    /// Burns `value` from `from`'s balance; only the bond account may call.
    pub fn burn(&mut self, caller: AccountId, from: AccountId, value: u128) -> (r: Result<
        (),
        PSP22Error,
    >)
        requires
            old(self).wf(),
        ensures
            final(self).wf(),
            metadata_unchanged(*old(self), *final(self)),
            caller != old(self).bond ==> (*final(self) == *old(self) && (r matches Err(e)
                && e matches PSP22Error::Custom(m) && m@ == "Not Permission"@)),
            caller == old(self).bond && value > old(self).data.spec_balance(from) ==> (*final(self)
                == *old(self) && r == Err::<(), PSP22Error>(PSP22Error::InsufficientBalance)),
            caller == old(self).bond && value <= old(self).data.spec_balance(from) ==> (r is Ok
                && burned(old(self).data, final(self).data, from, value)),
    {
        match self.only_bond(caller) {
            Ok(_) => {},
            Err(e) => {
                return Err(e);
            },
        }
        match self.data.burn(from, value) {
            Ok(_) => Ok(()),
            Err(e) => Err(e),
        }
    }

    /// Returns the current total supply.
    pub fn total_supply(&self) -> (r: u128)
        ensures
            r == self.data.spec_supply(),
    {
        self.data.total_supply()
    }

    /// Returns the balance of `owner`.
    pub fn balance_of(&self, owner: AccountId) -> (r: u128)
        requires
            self.wf(),
        ensures
            r == self.data.spec_balance(owner),
    {
        self.data.balance_of(owner)
    }

    /// Returns the allowance of `(owner, spender)`.
    pub fn allowance(&self, owner: AccountId, spender: AccountId) -> (r: u128)
        requires
            self.wf(),
        ensures
            r == self.data.spec_allowance(owner, spender),
    {
        self.data.allowance(owner, spender)
    }

    /// Moves `value` from `caller` to `to`; the returned notifications
    /// are for the host to forward.  The trailing data argument rides
    /// along for the host platform and does not touch the ledger.
    pub fn transfer(&mut self, caller: AccountId, to: AccountId, value: u128, _data: Vec<u8>) -> (r:
        Result<Vec<PSP22Event>, PSP22Error>)
        requires
            old(self).wf(),
        ensures
            final(self).wf(),
            metadata_unchanged(*old(self), *final(self)),
            r is Ok <==> value <= old(self).data.spec_balance(caller),
            r is Err ==> *final(self) == *old(self) && r == Err::<Vec<PSP22Event>, PSP22Error>(
                PSP22Error::InsufficientBalance,
            ),
            r matches Ok(evs) ==> transferred(old(self).data, final(self).data, caller, to, value)
                && evs@ == transfer_events(caller, to, value),
    {
        self.data.transfer(caller, to, value)
    }

    /// Moves `value` from `from` to `to` on behalf of `caller`, consuming
    /// the `(from, caller)` allowance.
    pub fn transfer_from(
        &mut self,
        caller: AccountId,
        from: AccountId,
        to: AccountId,
        value: u128,
        _data: Vec<u8>,
    ) -> (r: Result<Vec<PSP22Event>, PSP22Error>)
        requires
            old(self).wf(),
        ensures
            final(self).wf(),
            metadata_unchanged(*old(self), *final(self)),
            r is Ok <==> value <= old(self).data.spec_allowance(from, caller)
                && value <= old(self).data.spec_balance(from),
            r is Err ==> *final(self) == *old(self),
            value > old(self).data.spec_allowance(from, caller) ==> r == Err::<
                Vec<PSP22Event>,
                PSP22Error,
            >(PSP22Error::InsufficientAllowance),
            value <= old(self).data.spec_allowance(from, caller)
                && value > old(self).data.spec_balance(from) ==> r == Err::<
                Vec<PSP22Event>,
                PSP22Error,
            >(PSP22Error::InsufficientBalance),
            r matches Ok(evs) ==> transferred_from(
                old(self).data,
                final(self).data,
                caller,
                from,
                to,
                value,
            ) && evs@ == transfer_from_events(
                from,
                caller,
                to,
                value,
                (old(self).data.spec_allowance(from, caller) - value) as u128,
            ),
    {
        self.data.transfer_from(caller, from, to, value)
    }

    /// Sets the `(caller, spender)` allowance to exactly `value`.
    pub fn approve(&mut self, caller: AccountId, spender: AccountId, value: u128) -> (r: Result<
        Vec<PSP22Event>,
        PSP22Error,
    >)
        requires
            old(self).wf(),
        ensures
            final(self).wf(),
            metadata_unchanged(*old(self), *final(self)),
            r is Ok,
            r matches Ok(evs) ==> allowance_set(old(self).data, final(self).data, caller, spender, value)
                && evs@ == approval_events(caller, spender, value),
    {
        self.data.approve(caller, spender, value)
    }

    /// Adds `delta_value` to the `(caller, spender)` allowance.
    pub fn increase_allowance(
        &mut self,
        caller: AccountId,
        spender: AccountId,
        delta_value: u128,
    ) -> (r: Result<Vec<PSP22Event>, PSP22Error>)
        requires
            old(self).wf(),
        ensures
            final(self).wf(),
            metadata_unchanged(*old(self), *final(self)),
            r is Ok <==> old(self).data.spec_allowance(caller, spender) + delta_value <= u128::MAX,
            r is Err ==> *final(self) == *old(self) && r == Err::<Vec<PSP22Event>, PSP22Error>(
                PSP22Error::Overflow,
            ),
            r matches Ok(evs) ==> allowance_set(
                old(self).data,
                final(self).data,
                caller,
                spender,
                (old(self).data.spec_allowance(caller, spender) + delta_value) as u128,
            ) && evs@ == approval_events(
                caller,
                spender,
                (old(self).data.spec_allowance(caller, spender) + delta_value) as u128,
            ),
    {
        self.data.increase_allowance(caller, spender, delta_value)
    }

    /// Subtracts `delta_value` from the `(caller, spender)` allowance.
    pub fn decrease_allowance(
        &mut self,
        caller: AccountId,
        spender: AccountId,
        delta_value: u128,
    ) -> (r: Result<Vec<PSP22Event>, PSP22Error>)
        requires
            old(self).wf(),
        ensures
            final(self).wf(),
            metadata_unchanged(*old(self), *final(self)),
            r is Ok <==> delta_value <= old(self).data.spec_allowance(caller, spender),
            r is Err ==> *final(self) == *old(self) && r == Err::<Vec<PSP22Event>, PSP22Error>(
                PSP22Error::InsufficientAllowance,
            ),
            r matches Ok(evs) ==> allowance_set(
                old(self).data,
                final(self).data,
                caller,
                spender,
                (old(self).data.spec_allowance(caller, spender) - delta_value) as u128,
            ) && evs@ == approval_events(
                caller,
                spender,
                (old(self).data.spec_allowance(caller, spender) - delta_value) as u128,
            ),
    {
        self.data.decrease_allowance(caller, spender, delta_value)
    }

    /// The token's descriptive name, if one was given.
    pub fn token_name(&self) -> (r: Option<String>)
        ensures
            r == self.name,
    {
        match &self.name {
            Some(n) => Some(n.clone()),
            None => None,
        }
    }

    /// The token's ticker symbol, if one was given.
    pub fn token_symbol(&self) -> (r: Option<String>)
        ensures
            r == self.symbol,
    {
        match &self.symbol {
            Some(s) => Some(s.clone()),
            None => None,
        }
    }

    /// The token's decimal-place count.
    pub fn token_decimals(&self) -> (r: u8)
        ensures
            r == self.decimals,
    {
        self.decimals
    }
}

} // verus!
