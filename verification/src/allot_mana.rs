//! Merging mana allotments into the options of a transaction: an allotment
//! to an account that already gets mana adds to it, any other is appended.
use vstd::prelude::*;

use crate::ids::arrays_equal;
use crate::transaction_options::{default_transaction_options, BlockOptions, ManaAllotment, TransactionOptions};

verus! {

/// An account identifier with an amount of mana, as a mathematical pair.
pub type Allot = (Seq<u8>, int);

pub open spec fn allot_of(a: ManaAllotment) -> Allot {
    (a.account_id@, a.mana as int)
}

pub open spec fn allots_of(v: Seq<ManaAllotment>) -> Seq<Allot> {
    v.map_values(|a: ManaAllotment| allot_of(a))
}

/// The index of the first entry for the account, if there is one.
pub open spec fn find_account(s: Seq<Allot>, id: Seq<u8>) -> Option<nat>
    decreases s.len(),
{
    if s.len() == 0 {
        None
    } else if s[0].0 == id {
        Some(0)
    } else {
        match find_account(s.drop_first(), id) {
            Some(k) => Some(k + 1),
            None => None,
        }
    }
}

/// One allotment merged into a list: added to the first entry for the same
/// account, or appended.
pub open spec fn allot_step(s: Seq<Allot>, a: Allot) -> Seq<Allot> {
    match find_account(s, a.0) {
        Some(k) => s.update(k as int, (s[k as int].0, s[k as int].1 + a.1)),
        None => s.push(a),
    }
}

/// The allotments merged into a list one after the other.
pub open spec fn allot_all(s: Seq<Allot>, added: Seq<Allot>) -> Seq<Allot>
    decreases added.len(),
{
    if added.len() == 0 {
        s
    } else {
        allot_step(allot_all(s, added.drop_last()), added.last())
    }
}

pub open spec fn nonnegative(s: Seq<Allot>) -> bool {
    forall|i: int| 0 <= i < s.len() ==> (#[trigger] s[i]).1 >= 0
}

/// The list that the existing allotments (if any) stand for.
pub open spec fn existing_allots(existing: Option<Vec<ManaAllotment>>) -> Seq<Allot> {
    match existing {
        Some(v) => allots_of(v@),
        None => Seq::empty(),
    }
}

/// Every merged amount of mana fits in 64 bits.
pub open spec fn allotments_fit(existing: Option<Vec<ManaAllotment>>, added: Seq<ManaAllotment>) -> bool {
    let m = allot_all(existing_allots(existing), allots_of(added));
    forall|i: int| 0 <= i < m.len() ==> (#[trigger] m[i]).1 <= u64::MAX
}

pub proof fn lemma_find_account(s: Seq<Allot>, id: Seq<u8>)
    ensures
        match find_account(s, id) {
            Some(k) => k < s.len() && s[k as int].0 == id && forall|j: int| 0 <= j < k ==> (#[trigger] s[j]).0 != id,
            None => forall|j: int| 0 <= j < s.len() ==> (#[trigger] s[j]).0 != id,
        },
    decreases s.len(),
{
    if s.len() > 0 && s[0].0 != id {
        lemma_find_account(s.drop_first(), id);
        match find_account(s.drop_first(), id) {
            Some(k) => {
                assert forall|j: int| 0 <= j < k + 1 implies (#[trigger] s[j]).0 != id by {
                    if j > 0 {
                        assert(s[j] == s.drop_first()[j - 1]);
                    }
                }
            },
            None => {
                assert forall|j: int| 0 <= j < s.len() implies (#[trigger] s[j]).0 != id by {
                    if j > 0 {
                        assert(s[j] == s.drop_first()[j - 1]);
                    }
                }
            },
        }
    }
}

/// Merging one allotment keeps every entry's account and never lowers its mana.
pub proof fn lemma_step_grows(s: Seq<Allot>, a: Allot)
    requires
        a.1 >= 0,
    ensures
        allot_step(s, a).len() >= s.len(),
        forall|j: int|
            0 <= j < s.len() ==> (#[trigger] allot_step(s, a)[j]).0 == s[j].0 && allot_step(s, a)[j].1 >= s[j].1,
{
    lemma_find_account(s, a.0);
}

/// Merging a longer run of allotments never lowers an entry's mana.
pub proof fn lemma_prefix_grows(s: Seq<Allot>, added: Seq<Allot>, k: int, n: int)
    requires
        0 <= k <= n <= added.len(),
        nonnegative(added),
    ensures
        allot_all(s, added.take(k)).len() <= allot_all(s, added.take(n)).len(),
        forall|j: int|
            0 <= j < allot_all(s, added.take(k)).len() ==> (#[trigger] allot_all(s, added.take(n))[j]).0 == allot_all(
                s,
                added.take(k),
            )[j].0 && allot_all(s, added.take(n))[j].1 >= allot_all(s, added.take(k))[j].1,
    decreases n - k,
{
    if n > k {
        lemma_prefix_grows(s, added, k, n - 1);
        assert(added.take(n).drop_last() =~= added.take(n - 1));
        assert(added.take(n).last() == added[n - 1]);
        lemma_step_grows(allot_all(s, added.take(n - 1)), added[n - 1]);
    }
}

/// Adds `mana` to the first entry for `account_id`, or appends a new entry.
fn allot_one(list: &mut Vec<ManaAllotment>, a: ManaAllotment)
    requires
        forall|k: int|
            0 <= k < allot_step(allots_of(old(list)@), allot_of(a)).len() ==> (#[trigger] allot_step(
                allots_of(old(list)@),
                allot_of(a),
            )[k]).1 <= u64::MAX,
    ensures
        allots_of(final(list)@) == allot_step(allots_of(old(list)@), allot_of(a)),
{
    let ghost s = allots_of(list@);
    proof {
        lemma_find_account(s, allot_of(a).0);
    }
    let n = list.len();
    let mut i: usize = 0;
    while i < n
        invariant
            n == list@.len(),
            s == allots_of(list@),
            list@ == old(list)@,
            forall|k: int|
                0 <= k < allot_step(s, allot_of(a)).len() ==> (#[trigger] allot_step(s, allot_of(a))[k]).1
                    <= u64::MAX,
            i <= n,
            forall|j: int| 0 <= j < i ==> (#[trigger] list@[j]).account_id@ != a.account_id@,
        decreases n - i,
    {
        if arrays_equal(&list[i].account_id, &a.account_id) {
            proof {
                lemma_find_account(s, allot_of(a).0);
                assert forall|j: int| 0 <= j < i implies (#[trigger] s[j]).0 != a.account_id@ by {
                    assert(s[j] == allot_of(list@[j]));
                }
                assert(s[i as int] == allot_of(list@[i as int]));
                match find_account(s, a.account_id@) {
                    Some(k) => {
                        if k < i {
                            assert(s[k as int].0 != a.account_id@);
                        } else if k > i {
                            assert(s[i as int].0 != a.account_id@);
                        }
                    },
                    None => {
                        assert(s[i as int].0 != a.account_id@);
                    },
                }
                assert(find_account(s, a.account_id@) == Some(i as nat));
                assert(allot_step(s, allot_of(a))[i as int].1 == list@[i as int].mana + a.mana);
            }
            let merged = ManaAllotment { account_id: list[i].account_id, mana: list[i].mana + a.mana };
            list.set(i, merged);
            proof {
                assert(allots_of(list@) =~= allot_step(s, allot_of(a)));
            }
            return;
        }
        i = i + 1;
    }
    proof {
        match find_account(s, a.account_id@) {
            Some(k) => {
                assert(s[k as int] == allot_of(list@[k as int]));
            },
            None => {},
        }
    }
    list.push(a);
    proof {
        assert(allots_of(list@) =~= allot_step(s, allot_of(a)));
    }
}

/// Merges the allotments, in order, into the existing list. With no existing
/// list and no allotments there is still none.
pub fn merge_mana_allotments(existing: Option<Vec<ManaAllotment>>, allotments: Vec<ManaAllotment>) -> (r: Option<
    Vec<ManaAllotment>,
>)
    requires
        allotments_fit(existing, allotments@),
    ensures
        r is None <==> (existing is None && allotments@.len() == 0),
        r matches Some(v) ==> allots_of(v@) == allot_all(existing_allots(existing), allots_of(allotments@)),
{
    let ghost init = existing_allots(existing);
    let ghost added = allots_of(allotments@);
    let was_none = existing.is_none();
    let mut list: Vec<ManaAllotment> = match existing {
        Some(v) => v,
        None => Vec::new(),
    };
    proof {
        assert(allots_of(list@) =~= init);
        assert(added.take(0) =~= Seq::<Allot>::empty());
    }
    let n = allotments.len();
    let mut i: usize = 0;
    while i < n
        invariant
            n == allotments@.len(),
            added == allots_of(allotments@),
            i <= n,
            allots_of(list@) == allot_all(init, added.take(i as int)),
            forall|k: int|
                0 <= k < allot_all(init, added).len() ==> (#[trigger] allot_all(init, added)[k]).1 <= u64::MAX,
        decreases n - i,
    {
        proof {
            assert(nonnegative(added));
            lemma_prefix_grows(init, added, i + 1, n as int);
            assert(added.take(n as int) =~= added);
            assert(added.take(i + 1).drop_last() =~= added.take(i as int));
            assert(added.take(i + 1).last() == allot_of(allotments@[i as int]));
            assert(allot_all(init, added.take(i + 1)) == allot_step(
                allot_all(init, added.take(i as int)),
                allot_of(allotments@[i as int]),
            ));
            assert forall|k: int|
                0 <= k < allot_all(init, added.take(i + 1)).len() implies (#[trigger] allot_all(
                init,
                added.take(i + 1),
            )[k]).1 <= u64::MAX by {
                assert(allot_all(init, added.take(n as int))[k].1 >= allot_all(init, added.take(i + 1))[k].1);
            }
        }
        allot_one(&mut list, allotments[i]);
        i = i + 1;
    }
    proof {
        assert(added.take(n as int) =~= added);
    }
    if was_none && n == 0 {
        None
    } else {
        Some(list)
    }
}

/// The index of the first entry for the account, if there is one.
fn find_allotment(list: &Vec<ManaAllotment>, id: &[u8; 32]) -> (r: Option<usize>)
    ensures
        match r {
            Some(k) => find_account(allots_of(list@), id@) == Some(k as nat),
            None => find_account(allots_of(list@), id@) is None,
        },
{
    let ghost s = allots_of(list@);
    proof {
        lemma_find_account(s, id@);
    }
    let n = list.len();
    let mut i: usize = 0;
    while i < n
        invariant
            n == list@.len(),
            s == allots_of(list@),
            i <= n,
            forall|j: int| 0 <= j < i ==> (#[trigger] s[j]).0 != id@,
            match find_account(s, id@) {
                Some(k) => k < s.len() && s[k as int].0 == id@ && forall|j: int| 0 <= j < k ==> (#[trigger] s[j]).0 != id@,
                None => forall|j: int| 0 <= j < s.len() ==> (#[trigger] s[j]).0 != id@,
            },
        decreases n - i,
    {
        assert(s[i as int] == allot_of(list@[i as int]));
        if arrays_equal(&list[i].account_id, id) {
            return Some(i);
        }
        i = i + 1;
    }
    None
}

/// Tests `allotments_fit`: merging the allotments into the existing list
/// gives no amount of mana beyond 64 bits.
pub fn mana_allotments_fit(existing: &Option<Vec<ManaAllotment>>, allotments: &Vec<ManaAllotment>) -> (r: bool)
    ensures
        r == allotments_fit(*existing, allotments@),
{
    let ghost init = existing_allots(*existing);
    let ghost added = allots_of(allotments@);
    let mut list: Vec<ManaAllotment> = Vec::new();
    match existing {
        Some(v) => {
            let m = v.len();
            let mut j: usize = 0;
            while j < m
                invariant
                    m == v@.len(),
                    j <= m,
                    list@ == v@.take(j as int),
                decreases m - j,
            {
                list.push(v[j]);
                proof {
                    assert(v@.take(j + 1) =~= v@.take(j as int).push(v@[j as int]));
                }
                j = j + 1;
            }
            proof {
                assert(v@.take(m as int) =~= v@);
            }
        },
        None => {},
    }
    proof {
        assert(allots_of(list@) =~= init);
        assert(added.take(0) =~= Seq::<Allot>::empty());
        assert(nonnegative(added));
    }
    let n = allotments.len();
    let mut i: usize = 0;
    while i < n
        invariant
            n == allotments@.len(),
            added == allots_of(allotments@),
            init == existing_allots(*existing),
            nonnegative(added),
            i <= n,
            allots_of(list@) == allot_all(init, added.take(i as int)),
        decreases n - i,
    {
        let a = allotments[i];
        proof {
            assert(added.take(i + 1).drop_last() =~= added.take(i as int));
            assert(added.take(i + 1).last() == allot_of(a));
        }
        let ghost s = allots_of(list@);
        match find_allotment(&list, &a.account_id) {
            Some(k) => {
                proof {
                    lemma_find_account(s, a.account_id@);
                    assert(s[k as int] == allot_of(list@[k as int]));
                }
                match list[k].mana.checked_add(a.mana) {
                    None => {
                        proof {
                            lemma_prefix_grows(init, added, i + 1, n as int);
                            assert(added.take(n as int) =~= added);
                            assert(allot_all(init, added.take(i + 1)) == allot_step(s, allot_of(a)));
                            assert(k < allot_all(init, added.take(i + 1)).len());
                            assert(allot_all(init, added.take(i + 1))[k as int].1 > u64::MAX);
                            assert(allot_all(init, added)[k as int].1 > u64::MAX);
                            assert(k < allot_all(init, added).len());
                            assert(!allotments_fit(*existing, allotments@));
                        }
                        return false;
                    },
                    Some(v) => {
                        let merged = ManaAllotment { account_id: list[k].account_id, mana: v };
                        list.set(k, merged);
                        proof {
                            assert(allots_of(list@) =~= allot_step(s, allot_of(a)));
                        }
                    },
                }
            },
            None => {
                list.push(a);
                proof {
                    assert(allots_of(list@) =~= allot_step(s, allot_of(a)));
                }
            },
        }
        i = i + 1;
    }
    proof {
        assert(added.take(n as int) =~= added);
        assert forall|k: int| 0 <= k < allot_all(init, added).len() implies (#[trigger] allot_all(init, added)[k]).1
            <= u64::MAX by {
            assert(allots_of(list@)[k] == allot_of(list@[k]));
        }
    }
    true
}

/// The transaction options that a mana allotment is added to: those of the
/// given block options, or the default ones where none are given.
pub open spec fn effective_tx_options(options: Option<BlockOptions>) -> TransactionOptions {
    match options {
        Some(o) => match o.transaction_options {
            Some(t) => t,
            None => default_transaction_options(),
        },
        None => default_transaction_options(),
    }
}

/// The block options that preparing a mana allotment hands on: the given
/// options, with the allotments merged into their transaction options (the
/// default ones where none are given).
pub fn prepare_allot_mana_options(options: Option<BlockOptions>, allotments: Vec<ManaAllotment>) -> (r: BlockOptions)
    requires
        allotments_fit(effective_tx_options(options).mana_allotments, allotments@),
    ensures
        r.transaction_options matches Some(t) && {
            let base = effective_tx_options(options);
            let existing = base.mana_allotments;
            &&& t.remainder_value_strategy == base.remainder_value_strategy
            &&& (t.mana_allotments is None <==> existing is None && allotments@.len() == 0)
            &&& (t.mana_allotments matches Some(v) ==> allots_of(v@) == allot_all(
                existing_allots(existing),
                allots_of(allotments@),
            ))
        },
{
    let mut tx_opts = match options {
        Some(o) => match o.transaction_options {
            Some(t) => t,
            None => TransactionOptions::default(),
        },
        None => TransactionOptions::default(),
    };
    let existing = tx_opts.mana_allotments;
    tx_opts.mana_allotments = merge_mana_allotments(existing, allotments);
    BlockOptions { transaction_options: Some(tx_opts) }
}

/// Entries for different accounts.
pub open spec fn distinct_accounts(s: Seq<Allot>) -> bool {
    forall|i: int, j: int| 0 <= i < j < s.len() ==> (#[trigger] s[i]).0 != (#[trigger] s[j]).0
}

/// The sum of all mana in a list.
pub open spec fn total_mana(s: Seq<Allot>) -> int
    decreases s.len(),
{
    if s.len() == 0 {
        0
    } else {
        total_mana(s.drop_last()) + s.last().1
    }
}

pub proof fn lemma_total_update(s: Seq<Allot>, k: int, x: Allot)
    requires
        0 <= k < s.len(),
    ensures
        total_mana(s.update(k, x)) == total_mana(s) - s[k].1 + x.1,
    decreases s.len(),
{
    if k == s.len() - 1 {
        assert(s.update(k, x).drop_last() =~= s.drop_last());
    } else {
        lemma_total_update(s.drop_last(), k, x);
        assert(s.update(k, x).drop_last() =~= s.drop_last().update(k, x));
    }
}

/// Merging allotments keeps accounts distinct: a list with one entry per
/// account still has one entry per account afterwards.
pub proof fn lemma_merge_keeps_accounts_distinct(s: Seq<Allot>, added: Seq<Allot>)
    requires
        distinct_accounts(s),
    ensures
        distinct_accounts(allot_all(s, added)),
    decreases added.len(),
{
    if added.len() > 0 {
        let p = allot_all(s, added.drop_last());
        lemma_merge_keeps_accounts_distinct(s, added.drop_last());
        let a = added.last();
        lemma_find_account(p, a.0);
        let q = allot_step(p, a);
        match find_account(p, a.0) {
            Some(k) => {
                assert forall|i: int, j: int| 0 <= i < j < q.len() implies (#[trigger] q[i]).0 != (#[trigger] q[j]).0 by {
                    assert(q[i].0 == p[i].0);
                    assert(q[j].0 == p[j].0);
                }
            },
            None => {
                assert forall|i: int, j: int| 0 <= i < j < q.len() implies (#[trigger] q[i]).0 != (#[trigger] q[j]).0 by {
                    if j == p.len() {
                        assert(q[i] == p[i]);
                    } else {
                        assert(q[i] == p[i] && q[j] == p[j]);
                    }
                }
            },
        }
    }
}

/// Merging allotments adds exactly their mana to the total: no mana is lost
/// or created.
pub proof fn lemma_merge_adds_total(s: Seq<Allot>, added: Seq<Allot>)
    ensures
        total_mana(allot_all(s, added)) == total_mana(s) + total_mana(added),
    decreases added.len(),
{
    if added.len() > 0 {
        let p = allot_all(s, added.drop_last());
        lemma_merge_adds_total(s, added.drop_last());
        let a = added.last();
        lemma_find_account(p, a.0);
        match find_account(p, a.0) {
            Some(k) => {
                lemma_total_update(p, k as int, (p[k as int].0, p[k as int].1 + a.1));
            },
            None => {
                assert(p.push(a).drop_last() =~= p);
            },
        }
    }
}

/// After merging, every account that was allotted mana has an entry.
pub proof fn lemma_merge_covers_allotted_accounts(s: Seq<Allot>, added: Seq<Allot>, i: int)
    requires
        0 <= i < added.len(),
    ensures
        exists|j: int| 0 <= j < allot_all(s, added).len() && (#[trigger] allot_all(s, added)[j]).0 == added[i].0,
    decreases added.len(),
{
    let p = allot_all(s, added.drop_last());
    let a = added.last();
    lemma_find_account(p, a.0);
    if i == added.len() - 1 {
        match find_account(p, a.0) {
            Some(k) => {
                assert(allot_all(s, added)[k as int].0 == added[i].0);
            },
            None => {
                assert(allot_all(s, added)[p.len() as int].0 == added[i].0);
            },
        }
    } else {
        lemma_merge_covers_allotted_accounts(s, added.drop_last(), i);
        let j = choose|j: int| 0 <= j < p.len() && (#[trigger] p[j]).0 == added.drop_last()[i].0;
        assert(allot_all(s, added)[j].0 == p[j].0);
    }
}

/// The mana that a list allots to one account, over all its entries for it.
pub open spec fn account_mana(s: Seq<Allot>, id: Seq<u8>) -> int
    decreases s.len(),
{
    if s.len() == 0 {
        0
    } else {
        account_mana(s.drop_last(), id) + if s.last().0 == id {
            s.last().1
        } else {
            0
        }
    }
}

proof fn lemma_account_mana_update(s: Seq<Allot>, k: int, x: int, id: Seq<u8>)
    requires
        0 <= k < s.len(),
    ensures
        account_mana(s.update(k, (s[k].0, s[k].1 + x)), id) == account_mana(s, id) + if s[k].0 == id {
            x
        } else {
            0
        },
    decreases s.len(),
{
    let t = s.update(k, (s[k].0, s[k].1 + x));
    if k == s.len() - 1 {
        assert(t.drop_last() =~= s.drop_last());
    } else {
        lemma_account_mana_update(s.drop_last(), k, x, id);
        assert(t.drop_last() =~= s.drop_last().update(k, (s[k].0, s[k].1 + x)));
    }
}

/// Merging allotments gives each account exactly the mana allotted to it on
/// top of what it had.
pub proof fn lemma_merge_adds_account_mana(s: Seq<Allot>, added: Seq<Allot>, id: Seq<u8>)
    ensures
        account_mana(allot_all(s, added), id) == account_mana(s, id) + account_mana(added, id),
    decreases added.len(),
{
    if added.len() > 0 {
        let p = allot_all(s, added.drop_last());
        lemma_merge_adds_account_mana(s, added.drop_last(), id);
        let a = added.last();
        lemma_find_account(p, a.0);
        match find_account(p, a.0) {
            Some(k) => {
                lemma_account_mana_update(p, k as int, a.1, id);
            },
            None => {
                assert(p.push(a).drop_last() =~= p);
            },
        }
    }
}

} // verus!
