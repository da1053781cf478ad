use vstd::prelude::*;

verus! {

use crate::account::AccountId;

// The balance table is an association list: one `(account, amount)` entry
// per account, absence meaning zero.  The spec functions below give the
// table's mathematical reading; the executable functions are the only code
// that touches the representation.

/// The balance recorded for `a`: the amount of the entry holding `a`,
/// or zero when no entry does.
pub open spec fn bal_of(s: Seq<(AccountId, u128)>, a: AccountId) -> u128
    decreases s.len(),
{
    if s.len() == 0 {
        0u128
    } else if s.last().0 == a {
        s.last().1
    } else {
        bal_of(s.drop_last(), a)
    }
}

/// The sum of all recorded amounts.
pub open spec fn sum_bal(s: Seq<(AccountId, u128)>) -> int
    decreases s.len(),
{
    if s.len() == 0 {
        0int
    } else {
        sum_bal(s.drop_last()) + s.last().1
    }
}

/// Each account holds at most one entry.
pub open spec fn unique_accounts(s: Seq<(AccountId, u128)>) -> bool {
    forall|i: int, j: int| 0 <= i < j < s.len() ==> s[i].0 != s[j].0
}

pub proof fn lemma_sum_nonneg(s: Seq<(AccountId, u128)>)
    ensures
        0 <= sum_bal(s),
    decreases s.len(),
{
    if s.len() > 0 {
        lemma_sum_nonneg(s.drop_last());
    }
}

/// No single balance exceeds the sum of all balances.
pub proof fn lemma_bal_le_sum(s: Seq<(AccountId, u128)>, a: AccountId)
    ensures
        bal_of(s, a) <= sum_bal(s),
    decreases s.len(),
{
    if s.len() == 0 {
    } else if s.last().0 == a {
        lemma_sum_nonneg(s.drop_last());
    } else {
        lemma_bal_le_sum(s.drop_last(), a);
        lemma_sum_nonneg(s.drop_last());
    }
}

/// In a table without duplicate accounts, the entry at `i` decides the
/// balance of its account.
pub proof fn lemma_bal_at_index(s: Seq<(AccountId, u128)>, i: int)
    requires
        unique_accounts(s),
        0 <= i < s.len(),
    ensures
        bal_of(s, s[i].0) == s[i].1,
    decreases s.len(),
{
    if i < s.len() - 1 {
        assert(s.last().0 != s[i].0);
        assert forall|p: int, q: int| 0 <= p < q < s.drop_last().len() implies s.drop_last()[p].0
            != s.drop_last()[q].0 by {
            assert(s.drop_last()[p] == s[p]);
            assert(s.drop_last()[q] == s[q]);
        }
        lemma_bal_at_index(s.drop_last(), i);
        assert(s.drop_last()[i] == s[i]);
    }
}

/// An account without an entry has balance zero.
pub proof fn lemma_bal_absent(s: Seq<(AccountId, u128)>, a: AccountId)
    requires
        forall|i: int| 0 <= i < s.len() ==> s[i].0 != a,
    ensures
        bal_of(s, a) == 0,
    decreases s.len(),
{
    if s.len() > 0 {
        assert(s.last() == s[s.len() - 1]);
        assert forall|i: int| 0 <= i < s.drop_last().len() implies s.drop_last()[i].0 != a by {
            assert(s.drop_last()[i] == s[i]);
        }
        lemma_bal_absent(s.drop_last(), a);
    }
}

/// Overwriting the amount of the entry at `i` changes that account's
/// balance to the new amount, leaves every other balance alone, and moves
/// the sum by the difference.
pub proof fn lemma_bal_update(s: Seq<(AccountId, u128)>, i: int, v: u128)
    requires
        unique_accounts(s),
        0 <= i < s.len(),
    ensures
        unique_accounts(s.update(i, (s[i].0, v))),
        bal_of(s.update(i, (s[i].0, v)), s[i].0) == v,
        forall|x: AccountId|
            x != s[i].0 ==> bal_of(s.update(i, (s[i].0, v)), x) == bal_of(s, x),
        sum_bal(s.update(i, (s[i].0, v))) == sum_bal(s) - s[i].1 + v,
    decreases s.len(),
{
    let t = s.update(i, (s[i].0, v));
    assert forall|k: int| 0 <= k < t.len() implies t[k].0 == s[k].0 by {}
    assert forall|p: int, q: int| 0 <= p < q < t.len() implies t[p].0 != t[q].0 by {
        assert(t[p].0 == s[p].0);
        assert(t[q].0 == s[q].0);
    }
    if i == s.len() - 1 {
        assert(t.drop_last() =~= s.drop_last());
        assert(t.last() == (s[i].0, v));
        assert forall|x: AccountId| x != s[i].0 implies bal_of(t, x) == bal_of(s, x) by {
            assert(bal_of(t, x) == bal_of(t.drop_last(), x));
            assert(bal_of(s, x) == bal_of(s.drop_last(), x));
        }
    } else {
        assert(t.last() == s.last());
        assert(t.drop_last() =~= s.drop_last().update(i, (s[i].0, v)));
        assert forall|p: int, q: int| 0 <= p < q < s.drop_last().len() implies s.drop_last()[p].0
            != s.drop_last()[q].0 by {
            assert(s.drop_last()[p] == s[p]);
            assert(s.drop_last()[q] == s[q]);
        }
        assert(s.drop_last()[i] == s[i]);
        lemma_bal_update(s.drop_last(), i, v);
        assert(s.last().0 != s[i].0);
        assert(bal_of(t, s[i].0) == bal_of(t.drop_last(), s[i].0));
        assert forall|x: AccountId| x != s[i].0 implies bal_of(t, x) == bal_of(s, x) by {
            if s.last().0 == x {
            } else {
                assert(bal_of(t, x) == bal_of(t.drop_last(), x));
                assert(bal_of(s, x) == bal_of(s.drop_last(), x));
            }
        }
    }
}

/// Appending an entry for an account that has none gives that account the
/// new amount, leaves every other balance alone, and adds the amount to
/// the sum.
pub proof fn lemma_bal_push(s: Seq<(AccountId, u128)>, a: AccountId, v: u128)
    requires
        unique_accounts(s),
        forall|i: int| 0 <= i < s.len() ==> s[i].0 != a,
    ensures
        unique_accounts(s.push((a, v))),
        bal_of(s.push((a, v)), a) == v,
        forall|x: AccountId| x != a ==> bal_of(s.push((a, v)), x) == bal_of(s, x),
        sum_bal(s.push((a, v))) == sum_bal(s) + v,
{
    let t = s.push((a, v));
    assert(t.drop_last() =~= s);
    assert(t.last() == (a, v));
    assert forall|p: int, q: int| 0 <= p < q < t.len() implies t[p].0 != t[q].0 by {
        if q < s.len() {
            assert(t[p] == s[p]);
            assert(t[q] == s[q]);
        } else {
            assert(t[p] == s[p]);
            assert(t[q] == (a, v));
        }
    }
    assert forall|x: AccountId| x != a implies bal_of(t, x) == bal_of(s, x) by {
        assert(bal_of(t, x) == bal_of(t.drop_last(), x));
    }
}

/// Finds the entry of `a`, if the table holds one.
fn find_account(entries: &Vec<(AccountId, u128)>, a: AccountId) -> (r: Option<usize>)
    ensures
        r matches Some(i) ==> i < entries@.len() && entries@[i as int].0 == a,
        r is None ==> forall|j: int| 0 <= j < entries@.len() ==> entries@[j].0 != a,
{
    let n: usize = entries.len();
    let mut i: usize = 0;
    while i < n
        invariant
            n == entries@.len(),
            i <= n,
            forall|j: int| 0 <= j < i ==> entries@[j].0 != a,
        decreases n - i,
    {
        if entries[i].0 == a {
            return Some(i);
        }
        i = i + 1;
    }
    None
}

/// Reads the balance of `a`.
pub fn lookup_balance(entries: &Vec<(AccountId, u128)>, a: AccountId) -> (r: u128)
    requires
        unique_accounts(entries@),
    ensures
        r == bal_of(entries@, a),
{
    match find_account(entries, a) {
        Some(i) => {
            proof {
                lemma_bal_at_index(entries@, i as int);
            }
            entries[i].1
        },
        None => {
            proof {
                lemma_bal_absent(entries@, a);
            }
            0
        },
    }
}

/// Makes `v` the balance of `a`, leaving every other balance alone.
pub fn store_balance(entries: &mut Vec<(AccountId, u128)>, a: AccountId, v: u128)
    requires
        unique_accounts(old(entries)@),
    ensures
        unique_accounts(final(entries)@),
        bal_of(final(entries)@, a) == v,
        forall|x: AccountId| x != a ==> bal_of(final(entries)@, x) == bal_of(old(entries)@, x),
        sum_bal(final(entries)@) == sum_bal(old(entries)@) - bal_of(old(entries)@, a) + v,
{
    match find_account(entries, a) {
        Some(i) => {
            proof {
                lemma_bal_at_index(entries@, i as int);
                lemma_bal_update(entries@, i as int, v);
                assert((entries@[i as int].0, v) == (a, v));
            }
            entries[i] = (a, v);
        },
        None => {
            proof {
                lemma_bal_absent(entries@, a);
                lemma_bal_push(entries@, a, v);
            }
            entries.push((a, v));
        },
    }
}

} // verus!
