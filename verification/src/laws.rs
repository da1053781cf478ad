use vstd::prelude::*;

verus! {

use crate::account::AccountId;
use crate::data::allowance_set;
use crate::data::allowances_unchanged;
use crate::data::balances_unchanged;
use crate::data::burned;
use crate::data::minted;
use crate::data::PSP22Data;

// The ledger's cross-operation laws.  Each lemma's hypotheses are the
// success cases of the operations' own contracts, so a caller that makes
// the calls obtains the hypotheses directly from those contracts.

/// Mint/burn duality: a successful `mint(a, v)` followed by a successful
/// `burn(a, v)` with the same `v` restores every balance, every allowance
/// and the total supply to their values before the mint.
pub proof fn lemma_mint_burn_duality(
    pre: PSP22Data,
    mid: PSP22Data,
    post: PSP22Data,
    a: AccountId,
    v: u128,
)
    requires
        minted(pre, mid, a, v),
        burned(mid, post, a, v),
    ensures
        post.spec_supply() == pre.spec_supply(),
        balances_unchanged(pre, post),
        allowances_unchanged(pre, post),
{
    assert forall|x: AccountId| post.spec_balance(x) == pre.spec_balance(x) by {
        if x != a {
            assert(mid.spec_balance(x) == pre.spec_balance(x));
            assert(post.spec_balance(x) == mid.spec_balance(x));
        }
    }
    assert forall|o: AccountId, s: AccountId| post.spec_allowance(o, s) == pre.spec_allowance(
        o,
        s,
    ) by {
        assert(mid.spec_allowance(o, s) == pre.spec_allowance(o, s));
        assert(post.spec_allowance(o, s) == mid.spec_allowance(o, s));
    }
}

/// Allowance race-freedom: starting from allowance `x`, a successful
/// `increase_allowance(.., d1)` followed by `decrease_allowance(.., d2)`
/// with `d2 <= x + d1` meets a sufficient allowance — so the decrease,
/// by its own contract, succeeds — and leaves exactly `x + d1 - d2`.
/// (A decrease beyond the current allowance fails and changes nothing;
/// that is stated by `decrease_allowance`'s contract itself.)
pub proof fn lemma_allowance_adjustment(
    pre: PSP22Data,
    mid: PSP22Data,
    post: PSP22Data,
    owner: AccountId,
    spender: AccountId,
    d1: u128,
    d2: u128,
)
    requires
        pre.spec_allowance(owner, spender) + d1 <= u128::MAX,
        allowance_set(pre, mid, owner, spender, (pre.spec_allowance(owner, spender) + d1) as u128),
        d2 <= pre.spec_allowance(owner, spender) + d1,
        allowance_set(mid, post, owner, spender, (mid.spec_allowance(owner, spender) - d2) as u128),
    ensures
        d2 <= mid.spec_allowance(owner, spender),
        post.spec_allowance(owner, spender) == pre.spec_allowance(owner, spender) + d1 - d2,
{
}

} // verus!
