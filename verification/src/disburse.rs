//! Fee arithmetic and the transfer instructions a disbursing transition
//! decides on.

use crate::ledger::{contribution_of, sum_of, LedgerEntry};
use vstd::prelude::*;

verus! {

/// Fees are quoted in basis points: one hundredth of a percent.
pub const BPS_DENOM: i128 = 10_000;

/// The largest total the campaign accepts: `i128::MAX / BPS_DENOM`,
/// rounded down. Keeping the total within this bound keeps
/// `total * fee_bps` inside the 128-bit signed range for every
/// admissible fee.
pub const MAX_TOTAL: i128 = 17_014_118_346_046_923_173_168_730_371_588_410;

/// One transfer instruction of a disbursement: pay `amount` of the
/// campaign's asset out of the contract's custodial balance to `to`.
#[derive(Clone, Copy, Debug, PartialEq, Eq, Structural)]
pub struct Payout {
    /// The principal to pay.
    pub to: u64,
    /// The amount to pay, in the asset's smallest unit.
    pub amount: i128,
}

/// The platform's cut of a raise of `total` at `bps` basis points:
/// truncating division, so the remainder stays with the creator.
pub open spec fn fee_of(total: int, bps: int) -> int {
    (total * bps) / (BPS_DENOM as int)
}

/// The sum of the amounts of a payout plan.
pub open spec fn payout_sum(p: Seq<Payout>) -> int
    decreases p.len(),
{
    if p.len() == 0 {
        0
    } else {
        p[0].amount + payout_sum(p.drop_first())
    }
}

/// The sum of the amounts a payout plan pays to `who`.
pub open spec fn payout_to(p: Seq<Payout>, who: u64) -> int
    decreases p.len(),
{
    if p.len() == 0 {
        0
    } else if p[0].to == who {
        p[0].amount + payout_to(p.drop_first(), who)
    } else {
        payout_to(p.drop_first(), who)
    }
}

/// The plan repays the ledger entry by entry: one payout per entry, to its
/// contributor, of exactly the recorded amount, in ledger order.
pub open spec fn refunds_ledger(p: Seq<Payout>, s: Seq<LedgerEntry>) -> bool {
    &&& p.len() == s.len()
    &&& forall|i: int|
        0 <= i < s.len() ==> p[i].to == s[i].contributor && p[i].amount == s[i].amount
}

/// Appending a payout adds its amount to the plan sum.
pub proof fn lemma_payout_sum_push(p: Seq<Payout>, x: Payout)
    ensures
        payout_sum(p.push(x)) == payout_sum(p) + x.amount,
    decreases p.len(),
{
    if p.len() == 0 {
        assert(p.push(x).drop_first() =~= Seq::<Payout>::empty());
        assert(p.push(x)[0] == x);
        assert(payout_sum(Seq::<Payout>::empty()) == 0);
        assert(payout_sum(p) == 0);
    } else {
        assert(p.push(x).drop_first() =~= p.drop_first().push(x));
        assert(p.push(x)[0] == p[0]);
        lemma_payout_sum_push(p.drop_first(), x);
        assert(payout_sum(p.push(x)) == p[0].amount + payout_sum(p.push(x).drop_first()));
        assert(payout_sum(p) == p[0].amount + payout_sum(p.drop_first()));
    }
}

/// The platform's cut of `total` at `bps` basis points.
pub fn compute_fee(total: i128, bps: u32) -> (r: i128)
    requires
        0 <= total <= MAX_TOTAL,
        bps <= 10_000,
    ensures
        r == fee_of(total as int, bps as int),
        0 <= r <= total,
{
    proof {
        lemma_fee_in_range(total as int, bps as int);
        vstd::arithmetic::mul::lemma_mul_upper_bound(
            total as int,
            MAX_TOTAL as int,
            bps as int,
            BPS_DENOM as int,
        );
        vstd::arithmetic::div_mod::lemma_fundamental_div_mod(i128::MAX as int, BPS_DENOM as int);
        vstd::arithmetic::mul::lemma_mul_nonnegative(total as int, bps as int);
    }
    (total * (bps as i128)) / BPS_DENOM
}

/// The fee lies between zero and the whole raise, and a rate of zero
/// basis points yields a fee of zero.
pub proof fn lemma_fee_in_range(total: int, bps: int)
    requires
        0 <= total <= MAX_TOTAL as int,
        0 <= bps <= BPS_DENOM as int,
    ensures
        0 <= fee_of(total, bps) <= total,
        bps == 0 ==> fee_of(total, bps) == 0,
{
    let d = BPS_DENOM as int;
    vstd::arithmetic::mul::lemma_mul_nonnegative(total, bps);
    vstd::arithmetic::div_mod::lemma_div_is_ordered(0, total * bps, d);
    vstd::arithmetic::mul::lemma_mul_inequality(bps, d, total);
    vstd::arithmetic::div_mod::lemma_div_is_ordered(total * bps, total * d, d);
    vstd::arithmetic::div_mod::lemma_div_multiples_vanish(total, d);
}

} // verus!
