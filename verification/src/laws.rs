//! The accounting laws of the campaign, stated on their own so a reader
//! finds them in one place.

use crate::campaign::Campaign;
use crate::disburse::{fee_of, payout_sum, payout_to, refunds_ledger, Payout, BPS_DENOM, MAX_TOTAL};
use crate::ledger::{contribution_of, lemma_present_contribution, sum_of, LedgerEntry};
use vstd::prelude::*;

verus! {

/// While the invariant holds, the recorded total is exactly the sum of
/// the per-contributor cumulative amounts, and each entry's amount is
/// exactly what the ledger records for its contributor.
pub proof fn lemma_total_is_contribution_sum(c: &Campaign)
    requires
        c.inv(),
    ensures
        c.total_raised == sum_of(c.ledger@),
        forall|i: int|
            0 <= i < c.ledger@.len() ==> contribution_of(c.ledger@, c.ledger@[i].contributor)
                == c.ledger@[i].amount,
{
    assert forall|i: int| 0 <= i < c.ledger@.len() implies contribution_of(
        c.ledger@,
        c.ledger@[i].contributor,
    ) == c.ledger@[i].amount by {
        lemma_present_contribution(c.ledger@, i);
    }
}

/// A plan that repays the ledger entry by entry pays out the ledger sum in
/// all, and pays each principal exactly what the ledger records for it.
pub proof fn lemma_refund_conservation(p: Seq<Payout>, s: Seq<LedgerEntry>)
    requires
        refunds_ledger(p, s),
    ensures
        payout_sum(p) == sum_of(s),
        forall|u: u64| #[trigger] payout_to(p, u) == contribution_of(s, u),
    decreases s.len(),
{
    if s.len() == 0 {
        assert forall|u: u64| #[trigger] payout_to(p, u) == contribution_of(s, u) by {
            assert(payout_to(p, u) == 0);
            assert(contribution_of(s, u) == 0);
        }
    } else {
        let pr = p.drop_first();
        let sr = s.drop_first();
        assert(forall|j: int| 0 <= j < pr.len() ==> pr[j] == p[j + 1]);
        assert(forall|j: int| 0 <= j < sr.len() ==> sr[j] == s[j + 1]);
        assert(refunds_ledger(pr, sr));
        lemma_refund_conservation(pr, sr);
        assert forall|u: u64| #[trigger] payout_to(p, u) == contribution_of(s, u) by {
            assert(payout_to(p, u) == (if p[0].to == u {
                p[0].amount as int
            } else {
                0
            }) + payout_to(pr, u));
            assert(contribution_of(s, u) == (if s[0].contributor == u {
                s[0].amount as int
            } else {
                0
            }) + contribution_of(sr, u));
        }
    }
}

/// The fee is never negative, never exceeds the raise, vanishes at zero
/// basis points, and splits the raise exactly between platform and creator.
pub proof fn lemma_fee_split(total: int, bps: int)
    requires
        0 <= total <= MAX_TOTAL as int,
        0 <= bps <= BPS_DENOM as int,
    ensures
        0 <= fee_of(total, bps) <= total,
        bps == 0 ==> fee_of(total, bps) == 0,
        (total - fee_of(total, bps)) + fee_of(total, bps) == total,
{
    crate::disburse::lemma_fee_in_range(total, bps);
}

} // verus!
