use vstd::prelude::*;

verus! {

use crate::account::AccountId;

// The allowance table is an association list with one
// `(owner, spender, amount)` entry per `(owner, spender)` pair, absence
// meaning zero.  It mirrors the balance table; no sum is kept over it.

/// The allowance recorded for `(o, p)`: the amount of the entry holding
/// that pair, or zero when no entry does.
pub open spec fn allow_of(s: Seq<(AccountId, AccountId, u128)>, o: AccountId, p: AccountId) -> u128
    decreases s.len(),
{
    if s.len() == 0 {
        0u128
    } else if s.last().0 == o && s.last().1 == p {
        s.last().2
    } else {
        allow_of(s.drop_last(), o, p)
    }
}

/// Each `(owner, spender)` pair holds at most one entry.
pub open spec fn unique_pairs(s: Seq<(AccountId, AccountId, u128)>) -> bool {
    forall|i: int, j: int|
        0 <= i < j < s.len() ==> !(s[i].0 == s[j].0 && s[i].1 == s[j].1)
}

/// In a table without duplicate pairs, the entry at `i` decides the
/// allowance of its pair.
pub proof fn lemma_allow_at_index(s: Seq<(AccountId, AccountId, u128)>, i: int)
    requires
        unique_pairs(s),
        0 <= i < s.len(),
    ensures
        allow_of(s, s[i].0, s[i].1) == s[i].2,
    decreases s.len(),
{
    if i < s.len() - 1 {
        assert(!(s.last().0 == s[i].0 && s.last().1 == s[i].1));
        assert forall|p: int, q: int| 0 <= p < q < s.drop_last().len() implies !(s.drop_last()[p].0
            == s.drop_last()[q].0 && s.drop_last()[p].1 == s.drop_last()[q].1) by {
            assert(s.drop_last()[p] == s[p]);
            assert(s.drop_last()[q] == s[q]);
        }
        lemma_allow_at_index(s.drop_last(), i);
        assert(s.drop_last()[i] == s[i]);
    }
}

/// A pair without an entry has allowance zero.
pub proof fn lemma_allow_absent(s: Seq<(AccountId, AccountId, u128)>, o: AccountId, p: AccountId)
    requires
        forall|i: int| 0 <= i < s.len() ==> !(s[i].0 == o && s[i].1 == p),
    ensures
        allow_of(s, o, p) == 0,
    decreases s.len(),
{
    if s.len() > 0 {
        assert(s.last() == s[s.len() - 1]);
        assert forall|i: int| 0 <= i < s.drop_last().len() implies !(s.drop_last()[i].0 == o
            && s.drop_last()[i].1 == p) by {
            assert(s.drop_last()[i] == s[i]);
        }
        lemma_allow_absent(s.drop_last(), o, p);
    }
}

/// Overwriting the amount of the entry at `i` changes that pair's
/// allowance to the new amount and leaves every other allowance alone.
pub proof fn lemma_allow_update(s: Seq<(AccountId, AccountId, u128)>, i: int, v: u128)
    requires
        unique_pairs(s),
        0 <= i < s.len(),
    ensures
        unique_pairs(s.update(i, (s[i].0, s[i].1, v))),
        allow_of(s.update(i, (s[i].0, s[i].1, v)), s[i].0, s[i].1) == v,
        forall|x: AccountId, y: AccountId|
            !(x == s[i].0 && y == s[i].1) ==> allow_of(s.update(i, (s[i].0, s[i].1, v)), x, y)
                == allow_of(s, x, y),
    decreases s.len(),
{
    let t = s.update(i, (s[i].0, s[i].1, v));
    assert forall|p: int, q: int| 0 <= p < q < t.len() implies !(t[p].0 == t[q].0 && t[p].1
        == t[q].1) by {
        assert(t[p].0 == s[p].0 && t[p].1 == s[p].1);
        assert(t[q].0 == s[q].0 && t[q].1 == s[q].1);
    }
    if i == s.len() - 1 {
        assert(t.drop_last() =~= s.drop_last());
        assert(t.last() == (s[i].0, s[i].1, v));
        assert forall|x: AccountId, y: AccountId| !(x == s[i].0 && y == s[i].1) implies allow_of(
            t,
            x,
            y,
        ) == allow_of(s, x, y) by {
            assert(allow_of(t, x, y) == allow_of(t.drop_last(), x, y));
            assert(allow_of(s, x, y) == allow_of(s.drop_last(), x, y));
        }
    } else {
        assert(t.last() == s.last());
        assert(t.drop_last() =~= s.drop_last().update(i, (s[i].0, s[i].1, v)));
        assert forall|p: int, q: int| 0 <= p < q < s.drop_last().len() implies !(s.drop_last()[p].0
            == s.drop_last()[q].0 && s.drop_last()[p].1 == s.drop_last()[q].1) by {
            assert(s.drop_last()[p] == s[p]);
            assert(s.drop_last()[q] == s[q]);
        }
        assert(s.drop_last()[i] == s[i]);
        lemma_allow_update(s.drop_last(), i, v);
        assert(!(s.last().0 == s[i].0 && s.last().1 == s[i].1));
        assert(allow_of(t, s[i].0, s[i].1) == allow_of(t.drop_last(), s[i].0, s[i].1));
        assert forall|x: AccountId, y: AccountId| !(x == s[i].0 && y == s[i].1) implies allow_of(
            t,
            x,
            y,
        ) == allow_of(s, x, y) by {
            if s.last().0 == x && s.last().1 == y {
            } else {
                assert(allow_of(t, x, y) == allow_of(t.drop_last(), x, y));
                assert(allow_of(s, x, y) == allow_of(s.drop_last(), x, y));
            }
        }
    }
}

/// Appending an entry for a pair that has none gives that pair the new
/// amount and leaves every other allowance alone.
pub proof fn lemma_allow_push(
    s: Seq<(AccountId, AccountId, u128)>,
    o: AccountId,
    p: AccountId,
    v: u128,
)
    requires
        unique_pairs(s),
        forall|i: int| 0 <= i < s.len() ==> !(s[i].0 == o && s[i].1 == p),
    ensures
        unique_pairs(s.push((o, p, v))),
        allow_of(s.push((o, p, v)), o, p) == v,
        forall|x: AccountId, y: AccountId|
            !(x == o && y == p) ==> allow_of(s.push((o, p, v)), x, y) == allow_of(s, x, y),
{
    let t = s.push((o, p, v));
    assert(t.drop_last() =~= s);
    assert(t.last() == (o, p, v));
    assert forall|a: int, b: int| 0 <= a < b < t.len() implies !(t[a].0 == t[b].0 && t[a].1
        == t[b].1) by {
        if b < s.len() {
            assert(t[a] == s[a]);
            assert(t[b] == s[b]);
        } else {
            assert(t[a] == s[a]);
            assert(t[b] == (o, p, v));
        }
    }
    assert forall|x: AccountId, y: AccountId| !(x == o && y == p) implies allow_of(t, x, y)
        == allow_of(s, x, y) by {
        assert(allow_of(t, x, y) == allow_of(t.drop_last(), x, y));
    }
}

/// Finds the entry of `(o, p)`, if the table holds one.
fn find_pair(entries: &Vec<(AccountId, AccountId, u128)>, o: AccountId, p: AccountId) -> (r: Option<
    usize,
>)
    ensures
        r matches Some(i) ==> i < entries@.len() && entries@[i as int].0 == o
            && entries@[i as int].1 == p,
        r is None ==> forall|j: int|
            0 <= j < entries@.len() ==> !(entries@[j].0 == o && entries@[j].1 == p),
{
    let n: usize = entries.len();
    let mut i: usize = 0;
    while i < n
        invariant
            n == entries@.len(),
            i <= n,
            forall|j: int| 0 <= j < i ==> !(entries@[j].0 == o && entries@[j].1 == p),
        decreases n - i,
    {
        if entries[i].0 == o && entries[i].1 == p {
            return Some(i);
        }
        i = i + 1;
    }
    None
}

/// Reads the allowance of `(o, p)`.
pub fn lookup_allowance(entries: &Vec<(AccountId, AccountId, u128)>, o: AccountId, p: AccountId) -> (r:
    u128)
    requires
        unique_pairs(entries@),
    ensures
        r == allow_of(entries@, o, p),
{
    match find_pair(entries, o, p) {
        Some(i) => {
            proof {
                lemma_allow_at_index(entries@, i as int);
            }
            entries[i].2
        },
        None => {
            proof {
                lemma_allow_absent(entries@, o, p);
            }
            0
        },
    }
}

/// Makes `v` the allowance of `(o, p)`, leaving every other allowance alone.
pub fn store_allowance(
    entries: &mut Vec<(AccountId, AccountId, u128)>,
    o: AccountId,
    p: AccountId,
    v: u128,
)
    requires
        unique_pairs(old(entries)@),
    ensures
        unique_pairs(final(entries)@),
        allow_of(final(entries)@, o, p) == v,
        forall|x: AccountId, y: AccountId|
            !(x == o && y == p) ==> allow_of(final(entries)@, x, y) == allow_of(old(entries)@, x, y),
{
    match find_pair(entries, o, p) {
        Some(i) => {
            proof {
                lemma_allow_update(entries@, i as int, v);
                assert((entries@[i as int].0, entries@[i as int].1, v) == (o, p, v));
            }
            entries[i] = (o, p, v);
        },
        None => {
            proof {
                lemma_allow_push(entries@, o, p, v);
            }
            entries.push((o, p, v));
        },
    }
}

} // verus!
