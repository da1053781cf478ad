use vstd::prelude::*;

verus! {

use crate::account::AccountId;
use crate::allowances::allow_of;
use crate::allowances::lookup_allowance;
use crate::allowances::store_allowance;
use crate::allowances::unique_pairs;
use crate::balances::bal_of;
use crate::balances::lemma_bal_le_sum;
use crate::balances::lookup_balance;
use crate::balances::store_balance;
use crate::balances::sum_bal;
use crate::balances::unique_accounts;
use crate::errors::PSP22Error;
use crate::events::Approval;
use crate::events::PSP22Event;
use crate::events::Transfer;

/// The ledger: a sparse balance table, a sparse allowance table, and the
/// running total supply.
///
/// Every mutating operation validates all of its preconditions before
/// touching any field, so a failing call leaves the ledger exactly as it
/// was.  Successful calls return the change notifications they produced,
/// for the host adapter to forward.
pub struct PSP22Data {
    pub balances: Vec<(AccountId, u128)>,
    pub allowances: Vec<(AccountId, AccountId, u128)>,
    pub total_supply: u128,
}

impl PSP22Data {
    /// The balance of `a`; zero when `a` has no entry.
    pub open spec fn spec_balance(self, a: AccountId) -> u128 {
        bal_of(self.balances@, a)
    }

    /// The allowance of `(owner, spender)`; zero when the pair has no entry.
    pub open spec fn spec_allowance(self, owner: AccountId, spender: AccountId) -> u128 {
        allow_of(self.allowances@, owner, spender)
    }

    /// The recorded total supply.
    pub open spec fn spec_supply(self) -> u128 {
        self.total_supply
    }

    /// Conservation: the recorded total supply equals the sum of all
    /// balances.  This holds at every observable point between operations.
    pub open spec fn conserved(self) -> bool {
        self.total_supply == sum_bal(self.balances@)
    }

    /// Well-formedness: both tables hold at most one entry per key, and
    /// the supply is conserved.
    pub open spec fn wf(self) -> bool {
        &&& unique_accounts(self.balances@)
        &&& unique_pairs(self.allowances@)
        &&& self.conserved()
    }
}

/// No balance differs between `pre` and `post`.
pub open spec fn balances_unchanged(pre: PSP22Data, post: PSP22Data) -> bool {
    forall|x: AccountId| post.spec_balance(x) == pre.spec_balance(x)
}

/// No allowance differs between `pre` and `post`.
pub open spec fn allowances_unchanged(pre: PSP22Data, post: PSP22Data) -> bool {
    forall|o: AccountId, s: AccountId| post.spec_allowance(o, s) == pre.spec_allowance(o, s)
}

/// A successful `mint(to, value)` step from `pre` to `post`.
pub open spec fn minted(pre: PSP22Data, post: PSP22Data, to: AccountId, value: u128) -> bool {
    &&& post.spec_supply() == pre.spec_supply() + value
    &&& post.spec_balance(to) == pre.spec_balance(to) + value
    &&& forall|x: AccountId| x != to ==> post.spec_balance(x) == pre.spec_balance(x)
    &&& allowances_unchanged(pre, post)
}

/// A successful `burn(from, value)` step from `pre` to `post`.
pub open spec fn burned(pre: PSP22Data, post: PSP22Data, from: AccountId, value: u128) -> bool {
    &&& post.spec_supply() == pre.spec_supply() - value
    &&& post.spec_balance(from) == pre.spec_balance(from) - value
    &&& forall|x: AccountId| x != from ==> post.spec_balance(x) == pre.spec_balance(x)
    &&& allowances_unchanged(pre, post)
}

/// The balance movement of a successful `transfer`-like step from `pre`
/// to `post`: `value` moves from `from` to `to`, the supply and every
/// other balance stay put, and a self-transfer changes nothing.
pub open spec fn moved(
    pre: PSP22Data,
    post: PSP22Data,
    from: AccountId,
    to: AccountId,
    value: u128,
) -> bool {
    &&& post.spec_supply() == pre.spec_supply()
    &&& from == to ==> balances_unchanged(pre, post)
    &&& from != to ==> post.spec_balance(from) == pre.spec_balance(from) - value
        && post.spec_balance(to) == pre.spec_balance(to) + value
        && (forall|x: AccountId|
            x != from && x != to ==> post.spec_balance(x) == pre.spec_balance(x))
}

/// A successful `transfer(caller, to, value)` step from `pre` to `post`.
pub open spec fn transferred(
    pre: PSP22Data,
    post: PSP22Data,
    caller: AccountId,
    to: AccountId,
    value: u128,
) -> bool {
    &&& moved(pre, post, caller, to, value)
    &&& allowances_unchanged(pre, post)
}

/// A successful `transfer_from(caller, from, to, value)` step from `pre`
/// to `post`: the movement of `transfer`, plus `value` consumed from the
/// `(from, caller)` allowance.
pub open spec fn transferred_from(
    pre: PSP22Data,
    post: PSP22Data,
    caller: AccountId,
    from: AccountId,
    to: AccountId,
    value: u128,
) -> bool {
    &&& moved(pre, post, from, to, value)
    &&& post.spec_allowance(from, caller) == pre.spec_allowance(from, caller) - value
    &&& forall|o: AccountId, s: AccountId|
        !(o == from && s == caller) ==> post.spec_allowance(o, s) == pre.spec_allowance(o, s)
}

/// A step from `pre` to `post` that sets the `(owner, spender)` allowance
/// to exactly `value` and changes nothing else.
pub open spec fn allowance_set(
    pre: PSP22Data,
    post: PSP22Data,
    owner: AccountId,
    spender: AccountId,
    value: u128,
) -> bool {
    &&& post.spec_allowance(owner, spender) == value
    &&& forall|o: AccountId, s: AccountId|
        !(o == owner && s == spender) ==> post.spec_allowance(o, s) == pre.spec_allowance(o, s)
    &&& balances_unchanged(pre, post)
    &&& post.spec_supply() == pre.spec_supply()
}

/// The notifications of a successful `mint`: one Transfer from nothing,
/// suppressed for a zero value.
pub open spec fn mint_events(to: AccountId, value: u128) -> Seq<PSP22Event> {
    if value == 0 {
        Seq::empty()
    } else {
        seq![PSP22Event::Transfer(Transfer { from: None, to: Some(to), value })]
    }
}

/// The notifications of a successful `burn`: one Transfer to nothing,
/// suppressed for a zero value.
pub open spec fn burn_events(from: AccountId, value: u128) -> Seq<PSP22Event> {
    if value == 0 {
        Seq::empty()
    } else {
        seq![PSP22Event::Transfer(Transfer { from: Some(from), to: None, value })]
    }
}

/// The notifications of a successful `transfer`: one Transfer, suppressed
/// for a zero value.
pub open spec fn transfer_events(from: AccountId, to: AccountId, value: u128) -> Seq<PSP22Event> {
    if value == 0 {
        Seq::empty()
    } else {
        seq![PSP22Event::Transfer(Transfer { from: Some(from), to: Some(to), value })]
    }
}

/// The notifications of a successful `transfer_from`: the Approval
/// carrying the new allowance, then the Transfer.
pub open spec fn transfer_from_events(
    owner: AccountId,
    spender: AccountId,
    to: AccountId,
    value: u128,
    new_allowance: u128,
) -> Seq<PSP22Event> {
    seq![
        PSP22Event::Approval(Approval { owner, spender, amount: new_allowance }),
        PSP22Event::Transfer(Transfer { from: Some(owner), to: Some(to), value }),
    ]
}

/// The notification of a successful allowance change: one Approval
/// carrying the new absolute amount.
pub open spec fn approval_events(owner: AccountId, spender: AccountId, amount: u128) -> Seq<
    PSP22Event,
> {
    seq![PSP22Event::Approval(Approval { owner, spender, amount })]
}

impl PSP22Data {
    /// Creates an empty ledger: no entries, zero supply.
    pub fn new() -> (d: PSP22Data)
        ensures
            d.wf(),
            d.spec_supply() == 0,
            forall|a: AccountId| d.spec_balance(a) == 0,
            forall|o: AccountId, s: AccountId| d.spec_allowance(o, s) == 0,
    {
        let d = PSP22Data { balances: Vec::new(), allowances: Vec::new(), total_supply: 0 };
        proof {
            assert forall|a: AccountId| d.spec_balance(a) == 0 by {}
            assert forall|o: AccountId, s: AccountId| d.spec_allowance(o, s) == 0 by {}
        }
        d
    }

    /// Returns the current total supply.
    pub fn total_supply(&self) -> (r: u128)
        ensures
            r == self.spec_supply(),
    {
        self.total_supply
    }

    /// Returns the balance of `owner`; zero for an account without an entry.
    pub fn balance_of(&self, owner: AccountId) -> (r: u128)
        requires
            self.wf(),
        ensures
            r == self.spec_balance(owner),
    {
        lookup_balance(&self.balances, owner)
    }

    /// Returns the allowance of `(owner, spender)`; zero for a pair
    /// without an entry.
    pub fn allowance(&self, owner: AccountId, spender: AccountId) -> (r: u128)
        requires
            self.wf(),
        ensures
            r == self.spec_allowance(owner, spender),
    {
        lookup_allowance(&self.allowances, owner, spender)
    }

    /// Creates `value` new tokens on `to`'s balance.
    ///
    /// Fails with `Overflow` when the supply would exceed `u128::MAX`
    /// (the credited balance can overflow only if the supply does, since
    /// no balance exceeds the supply).
    pub fn mint(&mut self, to: AccountId, value: u128) -> (r: Result<Vec<PSP22Event>, PSP22Error>)
        requires
            old(self).wf(),
        ensures
            final(self).wf(),
            r is Ok <==> old(self).spec_supply() + value <= u128::MAX,
            r is Err ==> *final(self) == *old(self) && r == Err::<Vec<PSP22Event>, PSP22Error>(
                PSP22Error::Overflow,
            ),
            r matches Ok(evs) ==> minted(*old(self), *final(self), to, value) && evs@
                == mint_events(to, value),
    {
        if value > u128::MAX - self.total_supply {
            return Err(PSP22Error::Overflow);
        }
        if value == 0 {
            let evs: Vec<PSP22Event> = Vec::new();
            proof {
                assert(evs@ =~= mint_events(to, 0));
            }
            return Ok(evs);
        }
        let to_balance = lookup_balance(&self.balances, to);
        proof {
            lemma_bal_le_sum(self.balances@, to);
        }
        store_balance(&mut self.balances, to, to_balance + value);
        self.total_supply = self.total_supply + value;
        let mut evs: Vec<PSP22Event> = Vec::new();
        evs.push(PSP22Event::Transfer(Transfer { from: None, to: Some(to), value }));
        proof {
            assert(evs@ =~= mint_events(to, value));
        }
        Ok(evs)
    }

    /// Destroys `value` tokens from `from`'s balance.
    ///
    /// Fails with `InsufficientBalance` when `from` holds less than
    /// `value` (the supply cannot underflow, since it is at least as
    /// large as any balance).
    pub fn burn(&mut self, from: AccountId, value: u128) -> (r: Result<Vec<PSP22Event>, PSP22Error>)
        requires
            old(self).wf(),
        ensures
            final(self).wf(),
            r is Ok <==> value <= old(self).spec_balance(from),
            r is Err ==> *final(self) == *old(self) && r == Err::<Vec<PSP22Event>, PSP22Error>(
                PSP22Error::InsufficientBalance,
            ),
            r matches Ok(evs) ==> burned(*old(self), *final(self), from, value) && evs@
                == burn_events(from, value),
    {
        let from_balance = lookup_balance(&self.balances, from);
        if value > from_balance {
            return Err(PSP22Error::InsufficientBalance);
        }
        if value == 0 {
            let evs: Vec<PSP22Event> = Vec::new();
            proof {
                assert(evs@ =~= burn_events(from, 0));
            }
            return Ok(evs);
        }
        proof {
            lemma_bal_le_sum(self.balances@, from);
        }
        store_balance(&mut self.balances, from, from_balance - value);
        self.total_supply = self.total_supply - value;
        let mut evs: Vec<PSP22Event> = Vec::new();
        evs.push(PSP22Event::Transfer(Transfer { from: Some(from), to: None, value }));
        proof {
            assert(evs@ =~= burn_events(from, value));
        }
        Ok(evs)
    }

    /// Moves `value` from `caller`'s balance to `to`'s balance.
    ///
    /// Fails with `InsufficientBalance` when `caller` holds less than
    /// `value`.  A self-transfer is a correct no-op on balances but is
    /// still subject to the sufficiency check and still notified.  A
    /// zero-value transfer succeeds, changes nothing, and produces no
    /// notification.
    pub fn transfer(&mut self, caller: AccountId, to: AccountId, value: u128) -> (r: Result<
        Vec<PSP22Event>,
        PSP22Error,
    >)
        requires
            old(self).wf(),
        ensures
            final(self).wf(),
            r is Ok <==> value <= old(self).spec_balance(caller),
            r is Err ==> *final(self) == *old(self) && r == Err::<Vec<PSP22Event>, PSP22Error>(
                PSP22Error::InsufficientBalance,
            ),
            r matches Ok(evs) ==> transferred(*old(self), *final(self), caller, to, value) && evs@
                == transfer_events(caller, to, value),
            value == 0 ==> (r matches Ok(evs) && evs@.len() == 0 && *final(self) == *old(self)),
    {
        let caller_balance = lookup_balance(&self.balances, caller);
        if value > caller_balance {
            return Err(PSP22Error::InsufficientBalance);
        }
        if value == 0 {
            let evs: Vec<PSP22Event> = Vec::new();
            proof {
                assert(evs@ =~= transfer_events(caller, to, 0));
            }
            return Ok(evs);
        }
        if caller != to {
            store_balance(&mut self.balances, caller, caller_balance - value);
            let to_balance = lookup_balance(&self.balances, to);
            proof {
                lemma_bal_le_sum(self.balances@, to);
            }
            store_balance(&mut self.balances, to, to_balance + value);
        }
        let mut evs: Vec<PSP22Event> = Vec::new();
        evs.push(PSP22Event::Transfer(Transfer { from: Some(caller), to: Some(to), value }));
        proof {
            assert(evs@ =~= transfer_events(caller, to, value));
        }
        Ok(evs)
    }

    /// Moves `value` from `from`'s balance to `to`'s balance on behalf of
    /// `caller`, consuming `value` from the `(from, caller)` allowance.
    ///
    /// Fails with `InsufficientAllowance` when the allowance is short,
    /// and otherwise with `InsufficientBalance` when the balance is; in
    /// either case nothing changes.  The allowance rule applies uniformly,
    /// also when `from == caller`.
    pub fn transfer_from(
        &mut self,
        caller: AccountId,
        from: AccountId,
        to: AccountId,
        value: u128,
    ) -> (r: Result<Vec<PSP22Event>, PSP22Error>)
        requires
            old(self).wf(),
        ensures
            final(self).wf(),
            r is Ok <==> value <= old(self).spec_allowance(from, caller) && value <= old(
                self,
            ).spec_balance(from),
            r is Err ==> *final(self) == *old(self),
            value > old(self).spec_allowance(from, caller) ==> r == Err::<
                Vec<PSP22Event>,
                PSP22Error,
            >(PSP22Error::InsufficientAllowance),
            value <= old(self).spec_allowance(from, caller) && value > old(self).spec_balance(from)
                ==> r == Err::<Vec<PSP22Event>, PSP22Error>(PSP22Error::InsufficientBalance),
            r matches Ok(evs) ==> transferred_from(*old(self), *final(self), caller, from, to, value)
                && evs@ == transfer_from_events(
                from,
                caller,
                to,
                value,
                (old(self).spec_allowance(from, caller) - value) as u128,
            ),
    {
        let current_allowance = lookup_allowance(&self.allowances, from, caller);
        if value > current_allowance {
            return Err(PSP22Error::InsufficientAllowance);
        }
        let from_balance = lookup_balance(&self.balances, from);
        if value > from_balance {
            return Err(PSP22Error::InsufficientBalance);
        }
        let new_allowance = current_allowance - value;
        store_allowance(&mut self.allowances, from, caller, new_allowance);
        if value > 0 && from != to {
            store_balance(&mut self.balances, from, from_balance - value);
            let to_balance = lookup_balance(&self.balances, to);
            proof {
                lemma_bal_le_sum(self.balances@, to);
            }
            store_balance(&mut self.balances, to, to_balance + value);
        }
        let mut evs: Vec<PSP22Event> = Vec::new();
        evs.push(
            PSP22Event::Approval(Approval { owner: from, spender: caller, amount: new_allowance }),
        );
        evs.push(PSP22Event::Transfer(Transfer { from: Some(from), to: Some(to), value }));
        proof {
            assert(evs@ =~= transfer_from_events(from, caller, to, value, new_allowance));
        }
        Ok(evs)
    }

    /// Sets the `(owner, spender)` allowance to exactly `value`.
    /// Never fails.
    pub fn approve(&mut self, owner: AccountId, spender: AccountId, value: u128) -> (r: Result<
        Vec<PSP22Event>,
        PSP22Error,
    >)
        requires
            old(self).wf(),
        ensures
            final(self).wf(),
            r is Ok,
            r matches Ok(evs) ==> allowance_set(*old(self), *final(self), owner, spender, value)
                && evs@ == approval_events(owner, spender, value),
    {
        store_allowance(&mut self.allowances, owner, spender, value);
        let mut evs: Vec<PSP22Event> = Vec::new();
        evs.push(PSP22Event::Approval(Approval { owner, spender, amount: value }));
        proof {
            assert(evs@ =~= approval_events(owner, spender, value));
        }
        Ok(evs)
    }

    /// Adds `delta` to the `(owner, spender)` allowance with checked
    /// addition.  Fails with `Overflow` when the sum would exceed
    /// `u128::MAX`, leaving the allowance unchanged.
    pub fn increase_allowance(
        &mut self,
        owner: AccountId,
        spender: AccountId,
        delta: u128,
    ) -> (r: Result<Vec<PSP22Event>, PSP22Error>)
        requires
            old(self).wf(),
        ensures
            final(self).wf(),
            r is Ok <==> old(self).spec_allowance(owner, spender) + delta <= u128::MAX,
            r is Err ==> *final(self) == *old(self) && r == Err::<Vec<PSP22Event>, PSP22Error>(
                PSP22Error::Overflow,
            ),
            r matches Ok(evs) ==> allowance_set(
                *old(self),
                *final(self),
                owner,
                spender,
                (old(self).spec_allowance(owner, spender) + delta) as u128,
            ) && evs@ == approval_events(
                owner,
                spender,
                (old(self).spec_allowance(owner, spender) + delta) as u128,
            ),
    {
        let current_allowance = lookup_allowance(&self.allowances, owner, spender);
        if delta > u128::MAX - current_allowance {
            return Err(PSP22Error::Overflow);
        }
        let new_allowance = current_allowance + delta;
        store_allowance(&mut self.allowances, owner, spender, new_allowance);
        let mut evs: Vec<PSP22Event> = Vec::new();
        evs.push(PSP22Event::Approval(Approval { owner, spender, amount: new_allowance }));
        proof {
            assert(evs@ =~= approval_events(owner, spender, new_allowance));
        }
        Ok(evs)
    }

    /// Subtracts `delta` from the `(owner, spender)` allowance with
    /// checked subtraction.  Fails with `InsufficientAllowance` when
    /// `delta` exceeds the current allowance, leaving it unchanged.
    pub fn decrease_allowance(
        &mut self,
        owner: AccountId,
        spender: AccountId,
        delta: u128,
    ) -> (r: Result<Vec<PSP22Event>, PSP22Error>)
        requires
            old(self).wf(),
        ensures
            final(self).wf(),
            r is Ok <==> delta <= old(self).spec_allowance(owner, spender),
            r is Err ==> *final(self) == *old(self) && r == Err::<Vec<PSP22Event>, PSP22Error>(
                PSP22Error::InsufficientAllowance,
            ),
            r matches Ok(evs) ==> allowance_set(
                *old(self),
                *final(self),
                owner,
                spender,
                (old(self).spec_allowance(owner, spender) - delta) as u128,
            ) && evs@ == approval_events(
                owner,
                spender,
                (old(self).spec_allowance(owner, spender) - delta) as u128,
            ),
    {
        let current_allowance = lookup_allowance(&self.allowances, owner, spender);
        if delta > current_allowance {
            return Err(PSP22Error::InsufficientAllowance);
        }
        let new_allowance = current_allowance - delta;
        store_allowance(&mut self.allowances, owner, spender, new_allowance);
        let mut evs: Vec<PSP22Event> = Vec::new();
        evs.push(PSP22Event::Approval(Approval { owner, spender, amount: new_allowance }));
        proof {
            assert(evs@ =~= approval_events(owner, spender, new_allowance));
        }
        Ok(evs)
    }
}

impl Default for PSP22Data {
    /// The default ledger is the empty ledger.
    fn default() -> (d: Self)
        ensures
            d.wf(),
            d.spec_supply() == 0,
            forall|a: AccountId| d.spec_balance(a) == 0,
            forall|o: AccountId, s: AccountId| d.spec_allowance(o, s) == 0,
    {
        PSP22Data::new()
    }
}

} // verus!
