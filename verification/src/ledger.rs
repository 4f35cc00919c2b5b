//! The contribution ledger: one entry per contributor, holding the
//! cumulative amount that contributor has pledged.

use vstd::prelude::*;

verus! {

/// One contributor's cumulative pledge.
#[derive(Clone, Copy, Debug, PartialEq, Eq, Structural)]
pub struct LedgerEntry {
    /// The contributor's principal identity.
    pub contributor: u64,
    /// The cumulative amount this contributor has pledged.
    pub amount: i128,
}

/// The sum of all amounts recorded in the ledger.
pub open spec fn sum_of(s: Seq<LedgerEntry>) -> int
    decreases s.len(),
{
    if s.len() == 0 {
        0
    } else {
        s[0].amount + sum_of(s.drop_first())
    }
}

/// The amount recorded for `who`: the sum of the amounts of the entries
/// held by `who`, which under `contributors_unique` is the amount of the
/// single such entry, or zero where there is none.
pub open spec fn contribution_of(s: Seq<LedgerEntry>, who: u64) -> int
    decreases s.len(),
{
    if s.len() == 0 {
        0
    } else if s[0].contributor == who {
        s[0].amount + contribution_of(s.drop_first(), who)
    } else {
        contribution_of(s.drop_first(), who)
    }
}

/// Whether `who` holds an entry in the ledger.
pub open spec fn has_contributor(s: Seq<LedgerEntry>, who: u64) -> bool {
    exists|i: int| 0 <= i < s.len() && s[i].contributor == who
}

/// No contributor holds more than one entry.
pub open spec fn contributors_unique(s: Seq<LedgerEntry>) -> bool {
    forall|i: int, j: int|
        0 <= i < j < s.len() ==> s[i].contributor != s[j].contributor
}

/// Every recorded amount is positive: an entry exists only once its
/// contributor has pledged something.
pub open spec fn entries_positive(s: Seq<LedgerEntry>) -> bool {
    forall|i: int| 0 <= i < s.len() ==> s[i].amount > 0
}

/// Appending an entry adds its amount to the ledger sum.
pub proof fn lemma_sum_push(s: Seq<LedgerEntry>, e: LedgerEntry)
    ensures
        sum_of(s.push(e)) == sum_of(s) + e.amount,
    decreases s.len(),
{
    if s.len() == 0 {
        assert(s.push(e).drop_first() =~= Seq::<LedgerEntry>::empty());
        assert(s.push(e)[0] == e);
        assert(sum_of(Seq::<LedgerEntry>::empty()) == 0);
        assert(sum_of(s) == 0);
        assert(sum_of(s.push(e)) == e.amount + sum_of(s.push(e).drop_first()));
    } else {
        assert(s.push(e).drop_first() =~= s.drop_first().push(e));
        lemma_sum_push(s.drop_first(), e);
        assert(sum_of(s.push(e)) == s[0].amount + sum_of(s.push(e).drop_first()));
        assert(sum_of(s) == s[0].amount + sum_of(s.drop_first()));
    }
}

/// Replacing the entry at `i` moves the ledger sum by the difference
/// of the amounts.
pub proof fn lemma_sum_update(s: Seq<LedgerEntry>, i: int, e: LedgerEntry)
    requires
        0 <= i < s.len(),
    ensures
        sum_of(s.update(i, e)) == sum_of(s) - s[i].amount + e.amount,
    decreases s.len(),
{
    if i == 0 {
        assert(s.update(0, e).drop_first() =~= s.drop_first());
    } else {
        assert(s.update(i, e).drop_first() =~= s.drop_first().update(i - 1, e));
        lemma_sum_update(s.drop_first(), i - 1, e);
    }
}

/// Appending an entry moves the recorded amount of its contributor alone.
pub proof fn lemma_contribution_push(s: Seq<LedgerEntry>, e: LedgerEntry, u: u64)
    ensures
        contribution_of(s.push(e), u) == contribution_of(s, u) + if e.contributor == u {
            e.amount as int
        } else {
            0
        },
    decreases s.len(),
{
    if s.len() == 0 {
        assert(s.push(e).drop_first() =~= Seq::<LedgerEntry>::empty());
        assert(s.push(e)[0] == e);
        assert(contribution_of(Seq::<LedgerEntry>::empty(), u) == 0);
        assert(contribution_of(s, u) == 0);
    } else {
        assert(s.push(e).drop_first() =~= s.drop_first().push(e));
        assert(s.push(e)[0] == s[0]);
        lemma_contribution_push(s.drop_first(), e, u);
    }
}

/// Replacing the entry at `i` moves the recorded amounts of the old and
/// the new entry's contributors alone.
pub proof fn lemma_contribution_update(s: Seq<LedgerEntry>, i: int, e: LedgerEntry, u: u64)
    requires
        0 <= i < s.len(),
    ensures
        contribution_of(s.update(i, e), u) == contribution_of(s, u) + (if e.contributor == u {
            e.amount as int
        } else {
            0
        }) - (if s[i].contributor == u {
            s[i].amount as int
        } else {
            0
        }),
    decreases s.len(),
{
    if i == 0 {
        assert(s.update(0, e).drop_first() =~= s.drop_first());
    } else {
        assert(s.update(i, e).drop_first() =~= s.drop_first().update(i - 1, e));
        lemma_contribution_update(s.drop_first(), i - 1, e, u);
    }
}

/// A contributor without an entry has nothing recorded.
pub proof fn lemma_absent_contribution_zero(s: Seq<LedgerEntry>, u: u64)
    requires
        !has_contributor(s, u),
    ensures
        contribution_of(s, u) == 0,
    decreases s.len(),
{
    if s.len() > 0 {
        assert(forall|i: int|
            0 <= i < s.drop_first().len() ==> s.drop_first()[i] == s[i + 1]);
        lemma_absent_contribution_zero(s.drop_first(), u);
    }
}

/// In a ledger without duplicate contributors, the amount recorded for the
/// contributor of the entry at `i` is that entry's amount.
pub proof fn lemma_present_contribution(s: Seq<LedgerEntry>, i: int)
    requires
        contributors_unique(s),
        0 <= i < s.len(),
    ensures
        contribution_of(s, s[i].contributor) == s[i].amount,
    decreases s.len(),
{
    let rest = s.drop_first();
    assert(forall|j: int| 0 <= j < rest.len() ==> rest[j] == s[j + 1]);
    if i == 0 {
        assert(!has_contributor(rest, s[0].contributor));
        lemma_absent_contribution_zero(rest, s[0].contributor);
    } else {
        lemma_present_contribution(rest, i - 1);
    }
}

/// In a ledger of positive amounts, no single entry exceeds the sum.
pub proof fn lemma_entry_le_sum(s: Seq<LedgerEntry>, i: int)
    requires
        entries_positive(s),
        0 <= i < s.len(),
    ensures
        s[i].amount <= sum_of(s),
    decreases s.len(),
{
    let rest = s.drop_first();
    assert(forall|j: int| 0 <= j < rest.len() ==> rest[j] == s[j + 1]);
    lemma_sum_nonneg(rest);
    if i > 0 {
        lemma_entry_le_sum(rest, i - 1);
    }
}

/// A ledger of positive amounts has a non-negative sum.
pub proof fn lemma_sum_nonneg(s: Seq<LedgerEntry>)
    requires
        entries_positive(s),
    ensures
        sum_of(s) >= 0,
    decreases s.len(),
{
    if s.len() > 0 {
        assert(forall|j: int|
            0 <= j < s.drop_first().len() ==> s.drop_first()[j] == s[j + 1]);
        lemma_sum_nonneg(s.drop_first());
    }
}

/// Finds the position of `who`'s entry, if one exists.
pub fn find_entry(entries: &Vec<LedgerEntry>, who: u64) -> (r: Option<usize>)
    ensures
        match r {
            Some(i) => i < entries@.len() && entries@[i as int].contributor == who,
            None => !has_contributor(entries@, who),
        },
{
    let n: usize = entries.len();
    let mut idx: usize = 0;
    while idx < n
        invariant
            idx <= n,
            n == entries@.len(),
            forall|j: int| 0 <= j < idx ==> entries@[j].contributor != who,
        decreases n - idx,
    {
        if entries[idx].contributor == who {
            return Some(idx);
        }
        idx += 1;
    }
    None
}

} // verus!
