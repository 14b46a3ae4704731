//! Per-account subscriber records and the facts the engine needs about a
//! table of them: unique keys, lookup, and the active-subscriber count.

use vstd::prelude::*;
use crate::types::AccountId;

verus! {

/// Everything the ledger remembers about one account.  A record is created
/// lazily on first reference and never deleted.
#[derive(Clone, Copy, Debug)]
pub struct SubscriberRecord {
    /// The account the record belongs to.
    pub account: AccountId,
    /// Height at which access lapses; 0 until a first subscription.
    pub expiry: u32,
    /// One-way flag: the account completed at least one subscription.
    pub has_pass: bool,
    /// The tier last purchased.
    pub tier: u8,
    /// Advisory flag; the engine never reads it to trigger a renewal.
    pub auto_renewal: bool,
    /// The access-pass token, assigned exactly once, on the `has_pass`
    /// transition.
    pub token: Option<u64>,
}

/// No two records share an account.
pub open spec fn distinct_accounts(s: Seq<SubscriberRecord>) -> bool {
    forall|i: int, j: int|
        0 <= i < j < s.len() ==> #[trigger] s[i].account != #[trigger] s[j].account
}

/// Some record belongs to `a`.
pub open spec fn has_account(s: Seq<SubscriberRecord>, a: AccountId) -> bool {
    exists|i: int| 0 <= i < s.len() && #[trigger] s[i].account == a
}

/// The position of `a`'s record; meaningful under `has_account`.
pub open spec fn index_of(s: Seq<SubscriberRecord>, a: AccountId) -> int
    recommends
        has_account(s, a),
{
    choose|i: int| 0 <= i < s.len() && #[trigger] s[i].account == a
}

/// The record belonging to `a`; meaningful under `has_account`.
pub open spec fn record_of(s: Seq<SubscriberRecord>, a: AccountId) -> SubscriberRecord
    recommends
        has_account(s, a),
{
    s[index_of(s, a)]
}

/// With distinct accounts, a record's position pins the lookup down.
pub proof fn lemma_found_at(s: Seq<SubscriberRecord>, i: int)
    requires
        distinct_accounts(s),
        0 <= i < s.len(),
    ensures
        has_account(s, s[i].account),
        index_of(s, s[i].account) == i,
        record_of(s, s[i].account) == s[i],
{
    assert(has_account(s, s[i].account));
    let j = index_of(s, s[i].account);
    assert(0 <= j < s.len() && s[j].account == s[i].account);
    if i < j {
        assert(s[i].account != s[j].account);
    } else if j < i {
        assert(s[j].account != s[i].account);
    }
}

/// Overwriting a record in place, keeping its account, changes exactly that
/// account's lookup.
pub proof fn lemma_lookup_update(s: Seq<SubscriberRecord>, i: int, r: SubscriberRecord)
    requires
        distinct_accounts(s),
        0 <= i < s.len(),
        r.account == s[i].account,
    ensures
        distinct_accounts(s.update(i, r)),
        forall|a: AccountId| #[trigger] has_account(s.update(i, r), a) == has_account(s, a),
        record_of(s.update(i, r), r.account) == r,
        forall|a: AccountId|
            a != r.account && has_account(s, a) ==> #[trigger] record_of(s.update(i, r), a)
                == record_of(s, a),
{
    let t = s.update(i, r);
    assert(forall|k: int| 0 <= k < s.len() ==> #[trigger] t[k].account == s[k].account);
    assert forall|a: AccountId| #[trigger] has_account(t, a) == has_account(s, a) by {
        if has_account(t, a) {
            let k = choose|k: int| 0 <= k < t.len() && #[trigger] t[k].account == a;
            assert(s[k].account == a);
            assert(has_account(s, a));
        }
        if has_account(s, a) {
            let k = choose|k: int| 0 <= k < s.len() && #[trigger] s[k].account == a;
            assert(t[k].account == a);
            assert(has_account(t, a));
        }
    }
    lemma_found_at(t, i);
    assert(record_of(t, r.account) == r);
    assert forall|a: AccountId|
        a != r.account && has_account(s, a) implies #[trigger] record_of(t, a) == record_of(
        s,
        a,
    ) by {
        let k = index_of(s, a);
        assert(0 <= k < s.len() && s[k].account == a);
        assert(k != i);
        assert(t[k] == s[k]);
        lemma_found_at(t, k);
        lemma_found_at(s, k);
    }
}

/// Appending a record for a fresh account changes exactly that account's
/// lookup.
pub proof fn lemma_lookup_push(s: Seq<SubscriberRecord>, r: SubscriberRecord)
    requires
        distinct_accounts(s),
        !has_account(s, r.account),
    ensures
        distinct_accounts(s.push(r)),
        has_account(s.push(r), r.account),
        record_of(s.push(r), r.account) == r,
        forall|a: AccountId|
            a != r.account ==> #[trigger] has_account(s.push(r), a) == has_account(s, a),
        forall|a: AccountId|
            a != r.account && has_account(s, a) ==> #[trigger] record_of(s.push(r), a)
                == record_of(s, a),
{
    let t = s.push(r);
    assert(t[s.len() as int] == r);
    assert(forall|k: int| 0 <= k < s.len() ==> #[trigger] t[k] == s[k]);
    assert forall|i: int, j: int|
        0 <= i < j < t.len() implies #[trigger] t[i].account != #[trigger] t[j].account by {
        if j < s.len() {
            assert(s[i].account != s[j].account);
        } else {
            assert(t[j] == r);
            if t[i].account == r.account {
                assert(s[i].account == r.account);
                assert(has_account(s, r.account));
            }
        }
    }
    lemma_found_at(t, s.len() as int);
    assert forall|a: AccountId|
        a != r.account implies #[trigger] has_account(t, a) == has_account(s, a) by {
        if has_account(t, a) {
            let k = choose|k: int| 0 <= k < t.len() && #[trigger] t[k].account == a;
            assert(k < s.len());
            assert(has_account(s, a));
        }
        if has_account(s, a) {
            let k = choose|k: int| 0 <= k < s.len() && #[trigger] s[k].account == a;
            assert(t[k].account == a);
            assert(has_account(t, a));
        }
    }
    assert forall|a: AccountId|
        a != r.account && has_account(s, a) implies #[trigger] record_of(t, a) == record_of(
        s,
        a,
    ) by {
        let k = index_of(s, a);
        assert(0 <= k < s.len() && s[k].account == a);
        lemma_found_at(t, k);
        lemma_found_at(s, k);
    }
}

/// A well-formed record table under a given token counter: accounts are
/// pairwise distinct, tiers lie in {0, 1, 2}, a token is held exactly by
/// the pass holders, token ids lie between 1 and the counter, and — as
/// long as the counter has not saturated — no two pass holders share one.
pub open spec fn table_wf(s: Seq<SubscriberRecord>, counter: u64) -> bool {
    &&& distinct_accounts(s)
    &&& forall|i: int| 0 <= i < s.len() ==> #[trigger] s[i].tier <= 2
    &&& forall|i: int|
        0 <= i < s.len() ==> ((#[trigger] s[i].token) is Some <==> s[i].has_pass)
    &&& forall|i: int|
        0 <= i < s.len() ==> (#[trigger] s[i].token matches Some(tk) ==> 1 <= tk <= counter)
    &&& counter < u64::MAX ==> forall|i: int, j: int|
        0 <= i < j < s.len() && s[i].has_pass && s[j].has_pass ==> #[trigger] s[i].token
            != #[trigger] s[j].token
}

/// Decides [`table_wf`]: accepts a record table exactly when it is
/// well formed under the given token counter.
pub fn check_table(records: &Vec<SubscriberRecord>, counter: u64) -> (r: bool)
    ensures
        r == table_wf(records@, counter),
{
    let n = records.len();
    let mut i: usize = 0;
    while i < n
        invariant
            n == records@.len(),
            i <= n,
            forall|p: int, q: int|
                0 <= p < q < i ==> #[trigger] records@[p].account != #[trigger] records@[q].account,
            forall|p: int| 0 <= p < i ==> #[trigger] records@[p].tier <= 2,
            forall|p: int|
                0 <= p < i ==> ((#[trigger] records@[p].token) is Some <==> records@[p].has_pass),
            forall|p: int|
                0 <= p < i ==> (#[trigger] records@[p].token matches Some(tk) ==> 1 <= tk
                    <= counter),
            counter < u64::MAX ==> forall|p: int, q: int|
                0 <= p < q < i && records@[p].has_pass && records@[q].has_pass
                    ==> #[trigger] records@[p].token != #[trigger] records@[q].token,
        decreases n - i,
    {
        let rec = records[i];
        proof {
            assert(rec == records@[i as int]);
        }
        if rec.tier > 2 {
            proof {
                assert(records@[i as int].tier > 2);
            }
            return false;
        }
        match rec.token {
            Some(tk) => {
                if !rec.has_pass {
                    proof {
                        assert(records@[i as int].token is Some && !records@[i as int].has_pass);
                    }
                    return false;
                }
                if tk < 1 || tk > counter {
                    proof {
                        assert(records@[i as int].token matches Some(t) && !(1 <= t <= counter));
                    }
                    return false;
                }
            },
            None => {
                if rec.has_pass {
                    proof {
                        assert(records@[i as int].token is None && records@[i as int].has_pass);
                    }
                    return false;
                }
            },
        }
        let mut j: usize = 0;
        while j < i
            invariant
                j <= i,
                i < n,
                n == records@.len(),
                rec == records@[i as int],
                rec.has_pass ==> rec.token is Some,
                forall|q: int|
                    0 <= q < i ==> ((#[trigger] records@[q].token) is Some
                        <==> records@[q].has_pass),
                forall|q: int|
                    0 <= q < j ==> #[trigger] records@[q].account != records@[i as int].account,
                counter < u64::MAX && records@[i as int].has_pass ==> forall|q: int|
                    0 <= q < j && records@[q].has_pass ==> #[trigger] records@[q].token
                        != records@[i as int].token,
            decreases i - j,
        {
            let other = records[j];
            proof {
                assert(other == records@[j as int]);
            }
            if other.account == rec.account {
                proof {
                    assert(records@[j as int].account == records@[i as int].account);
                }
                return false;
            }
            if counter < u64::MAX && rec.has_pass && other.has_pass {
                let same_token = match (other.token, rec.token) {
                    (Some(a), Some(b)) => a == b,
                    _ => false,
                };
                if same_token {
                    proof {
                        assert(records@[j as int].token == records@[i as int].token);
                    }
                    return false;
                }
            }
            proof {
                assert(records@[j as int].account != records@[i as int].account);
                if counter < u64::MAX && records@[i as int].has_pass && records@[j as int].has_pass {
                    assert(records@[j as int].token != records@[i as int].token);
                }
            }
            j += 1;
        }
        i += 1;
    }
    true
}

/// How many records are still active at `height`: their expiry lies strictly
/// beyond it.
pub open spec fn active_in(s: Seq<SubscriberRecord>, height: u32) -> nat
    decreases s.len(),
{
    if s.len() == 0 {
        0
    } else {
        active_in(s.drop_last(), height) + if s.last().expiry > height {
            1nat
        } else {
            0nat
        }
    }
}

/// One scan step: the count over a prefix grows by the next record's
/// contribution.
pub proof fn lemma_active_in_take_step(s: Seq<SubscriberRecord>, i: int, height: u32)
    requires
        0 <= i < s.len(),
    ensures
        active_in(s.take(i + 1), height) == active_in(s.take(i), height) + if s[i].expiry
            > height {
            1nat
        } else {
            0nat
        },
{
    assert(s.take(i + 1).drop_last() =~= s.take(i));
    assert(s.take(i + 1).last() == s[i]);
}

/// Scanning the whole table is the count over the whole table.
pub proof fn lemma_active_in_all(s: Seq<SubscriberRecord>, height: u32)
    ensures
        active_in(s.take(s.len() as int), height) == active_in(s, height),
{
    assert(s.take(s.len() as int) =~= s);
}

/// The active count never grows as the height advances.
pub proof fn lemma_active_in_antitone(s: Seq<SubscriberRecord>, h1: u32, h2: u32)
    requires
        h1 <= h2,
    ensures
        active_in(s, h2) <= active_in(s, h1),
    decreases s.len(),
{
    if s.len() > 0 {
        lemma_active_in_antitone(s.drop_last(), h1, h2);
    }
}

/// The active count drops strictly once the height passes some record's
/// expiry.
pub proof fn lemma_active_in_strict(s: Seq<SubscriberRecord>, i: int, h1: u32, h2: u32)
    requires
        0 <= i < s.len(),
        h1 < s[i].expiry,
        s[i].expiry <= h2,
    ensures
        active_in(s, h2) < active_in(s, h1),
    decreases s.len(),
{
    if i == s.len() - 1 {
        lemma_active_in_antitone(s.drop_last(), h1, h2);
    } else {
        lemma_active_in_strict(s.drop_last(), i, h1, h2);
        assert(s.drop_last()[i] == s[i]);
    }
}

/// Overwriting one record swaps its contribution out of the count.
pub proof fn lemma_active_in_update(s: Seq<SubscriberRecord>, i: int, r: SubscriberRecord)
    requires
        0 <= i < s.len(),
    ensures
        forall|h: u32|
            #[trigger] active_in(s.update(i, r), h) + (if s[i].expiry > h {
                1nat
            } else {
                0nat
            }) == active_in(s, h) + (if r.expiry > h {
                1nat
            } else {
                0nat
            }),
    decreases s.len(),
{
    let t = s.update(i, r);
    if i < s.len() - 1 {
        lemma_active_in_update(s.drop_last(), i, r);
    }
    assert forall|h: u32|
        #[trigger] active_in(t, h) + (if s[i].expiry > h {
            1nat
        } else {
            0nat
        }) == active_in(s, h) + (if r.expiry > h {
            1nat
        } else {
            0nat
        }) by {
        if i == s.len() - 1 {
            assert(t.drop_last() =~= s.drop_last());
            assert(t.last() == r);
            assert(s.last() == s[i]);
        } else {
            assert(t.drop_last() =~= s.drop_last().update(i, r));
            assert(active_in(s.drop_last().update(i, r), h) + (if s.drop_last()[i].expiry > h {
                1nat
            } else {
                0nat
            }) == active_in(s.drop_last(), h) + (if r.expiry > h {
                1nat
            } else {
                0nat
            }));
            assert(t.last() == s.last());
            assert(s.drop_last()[i] == s[i]);
        }
    }
}

/// Appending a record adds its contribution to the count.
pub proof fn lemma_active_in_push(s: Seq<SubscriberRecord>, r: SubscriberRecord)
    ensures
        forall|h: u32|
            #[trigger] active_in(s.push(r), h) == active_in(s, h) + (if r.expiry > h {
                1nat
            } else {
                0nat
            }),
{
    assert forall|h: u32|
        #[trigger] active_in(s.push(r), h) == active_in(s, h) + (if r.expiry > h {
            1nat
        } else {
            0nat
        }) by {
        assert(s.push(r).drop_last() =~= s);
        assert(s.push(r).last() == r);
    }
}

} // verus!
