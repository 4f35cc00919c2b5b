//! The campaign record and its lifecycle state machine.
//!
//! Every operation takes the inputs a host would supply — the verified
//! caller, the current ledger time — as plain arguments, decides whether
//! the operation is legal, mutates the record, and returns the transfer
//! instructions the host must carry out. All checks run strictly before
//! any mutation: a rejected call leaves the record untouched.

use crate::disburse::{
    compute_fee, fee_of, lemma_payout_sum_push, payout_sum, payout_to, refunds_ledger, Payout,
    MAX_TOTAL,
};
use crate::errors::Error;
use crate::ledger::{
    contribution_of, contributors_unique, entries_positive, find_entry, has_contributor,
    lemma_absent_contribution_zero, lemma_contribution_push, lemma_contribution_update,
    lemma_entry_le_sum, lemma_present_contribution, lemma_sum_push, lemma_sum_update, sum_of,
    LedgerEntry,
};
use vstd::prelude::*;

verus! {

/// Where the campaign stands in its life. `Active` is the initial state;
/// the other three are terminal: no operation leaves them.
#[derive(Clone, Copy, Debug, PartialEq, Eq, Structural)]
pub enum Status {
    /// Accepting contributions, metadata edits and roadmap items.
    Active,
    /// The goal was met and the raise was paid out to the creator.
    Successful,
    /// The goal was missed and the contributors were repaid.
    Refunded,
    /// The creator called the campaign off and the contributors were repaid.
    Cancelled,
}

/// The optional platform that skims a fee from a successful raise.
#[derive(Clone, Copy, Debug, PartialEq, Eq, Structural)]
pub struct PlatformConfig {
    /// The principal the fee is paid to.
    pub address: u64,
    /// The fee in basis points; at most 10,000 (100%).
    pub fee_bps: u32,
}

/// One milestone on the campaign's roadmap.
#[derive(Debug, PartialEq, Eq)]
pub struct RoadmapItem {
    /// When the milestone is promised for.
    pub date: u64,
    /// What the milestone is; never empty.
    pub description: String,
}

/// The single campaign record a contract instance owns: its configuration,
/// its contribution ledger, and where it stands in its life.
pub struct Campaign {
    /// Whether `initialize` has run; until then the record is blank.
    pub initialized: bool,
    /// The principal that owns the privileged operations.
    pub creator: u64,
    /// The fungible asset contributions are denominated in.
    pub asset: u64,
    /// The amount the campaign is trying to raise.
    pub goal: i128,
    /// Contributions are accepted strictly before this time.
    pub deadline: u64,
    /// The smallest single contribution accepted.
    pub min_contribution: i128,
    /// The platform taking a fee, if one was configured at initialization.
    pub platform: Option<PlatformConfig>,
    /// The sum of the recorded contributions, zeroed by disbursement.
    pub total_raised: i128,
    /// Where the campaign stands in its life.
    pub status: Status,
    /// One entry per contributor with the cumulative amount pledged.
    pub ledger: Vec<LedgerEntry>,
    /// Creator-editable display field.
    pub title: Option<String>,
    /// Creator-editable display field.
    pub description: Option<String>,
    /// Creator-editable display field.
    pub socials: Option<String>,
    /// Milestones in the order the creator added them.
    pub roadmap: Vec<RoadmapItem>,
}

/// The fixed configuration and initialization flag agree between two
/// states of the record.
pub open spec fn same_config(a: Campaign, b: Campaign) -> bool {
    &&& b.initialized == a.initialized
    &&& b.creator == a.creator
    &&& b.asset == a.asset
    &&& b.goal == a.goal
    &&& b.deadline == a.deadline
    &&& b.min_contribution == a.min_contribution
    &&& b.platform == a.platform
}

/// The display fields and the roadmap agree between two states of the
/// record.
pub open spec fn same_display(a: Campaign, b: Campaign) -> bool {
    &&& b.title == a.title
    &&& b.description == a.description
    &&& b.socials == a.socials
    &&& b.roadmap@ == a.roadmap@
}

impl Campaign {
    /// The accounting invariant every operation preserves: the total
    /// matches the ledger, no contributor holds two entries, amounts are
    /// positive and bounded, the configuration is valid, and a terminal
    /// campaign holds no funds.
    pub open spec fn inv(&self) -> bool {
        &&& 0 <= self.total_raised <= MAX_TOTAL
        &&& sum_of(self.ledger@) == self.total_raised
        &&& contributors_unique(self.ledger@)
        &&& entries_positive(self.ledger@)
        &&& self.initialized ==> self.goal >= 1 && self.min_contribution >= 1
        &&& self.initialized ==> match self.platform {
            Some(pc) => pc.fee_bps <= 10_000,
            None => true,
        }
        &&& !(self.status is Active) ==> self.total_raised == 0 && self.ledger@.len() == 0
        &&& !self.initialized ==> self.status is Active && self.total_raised == 0
            && self.ledger@.len() == 0 && self.roadmap@.len() == 0
    }

    /// A blank record: not yet initialized, nothing raised, nothing stored.
    pub fn new() -> (c: Campaign)
        ensures
            c.inv(),
            !c.initialized,
            c.status is Active,
            c.total_raised == 0,
            c.ledger@.len() == 0,
            c.roadmap@.len() == 0,
            c.title is None,
            c.description is None,
            c.socials is None,
            c.platform is None,
    {
        Campaign {
            initialized: false,
            creator: 0,
            asset: 0,
            goal: 0,
            deadline: 0,
            min_contribution: 0,
            platform: None,
            total_raised: 0,
            status: Status::Active,
            ledger: Vec::new(),
            title: None,
            description: None,
            socials: None,
            roadmap: Vec::new(),
        }
    }

    /// Creates the campaign record. Runs at most once: a second call is
    /// rejected with `AlreadyInitialized`, and a platform fee above 100%
    /// with `FeeTooHigh`; the record is then left untouched.
    pub fn initialize(
        &mut self,
        creator: u64,
        asset: u64,
        goal: i128,
        deadline: u64,
        min_contribution: i128,
        platform: Option<PlatformConfig>,
    ) -> (r: Result<(), Error>)
        requires
            old(self).inv(),
            goal >= 1,
            min_contribution >= 1,
        ensures
            final(self).inv(),
            r is Ok <==> !old(self).initialized && (platform matches Some(pc) ==> pc.fee_bps
                <= 10_000),
            r matches Err(e) ==> *final(self) == *old(self) && e == (if old(self).initialized {
                Error::AlreadyInitialized
            } else {
                Error::FeeTooHigh
            }),
            r is Ok ==> {
                &&& final(self).initialized
                &&& final(self).creator == creator
                &&& final(self).asset == asset
                &&& final(self).goal == goal
                &&& final(self).deadline == deadline
                &&& final(self).min_contribution == min_contribution
                &&& final(self).platform == platform
                &&& final(self).status is Active
                &&& final(self).total_raised == 0
                &&& final(self).ledger@.len() == 0
                &&& final(self).roadmap@.len() == 0
                &&& final(self).title is None
                &&& final(self).description is None
                &&& final(self).socials is None
            },
    {
        if self.initialized {
            return Err(Error::AlreadyInitialized);
        }
        if let Some(pc) = platform {
            if pc.fee_bps > 10_000 {
                return Err(Error::FeeTooHigh);
            }
        }
        *self = Campaign {
            initialized: true,
            creator,
            asset,
            goal,
            deadline,
            min_contribution,
            platform,
            total_raised: 0,
            status: Status::Active,
            ledger: Vec::new(),
            title: None,
            description: None,
            socials: None,
            roadmap: Vec::new(),
        };
        Ok(())
    }

    /// Records a pledge of `amount` by `who` at ledger time `now`. The
    /// host moves the amount from `who` into custody exactly when this
    /// returns `Ok`. Rejected while not active, at or past the deadline,
    /// or under the per-contribution floor — in that order.
    pub fn contribute(&mut self, who: u64, amount: i128, now: u64) -> (r: Result<(), Error>)
        requires
            old(self).inv(),
            old(self).initialized,
            old(self).status is Active && now < old(self).deadline && amount >= old(
                self,
            ).min_contribution ==> old(self).total_raised + amount <= MAX_TOTAL,
        ensures
            final(self).inv(),
            r is Ok <==> old(self).status is Active && now < old(self).deadline && amount >= old(
                self,
            ).min_contribution,
            r matches Err(e) ==> *final(self) == *old(self) && e == (if !(old(
                self,
            ).status is Active) {
                Error::CampaignNotActive
            } else if now >= old(self).deadline {
                Error::CampaignEnded
            } else {
                Error::BelowMinimum
            }),
            r is Ok ==> {
                &&& final(self).total_raised == old(self).total_raised + amount
                &&& final(self).status is Active
                &&& contribution_of(final(self).ledger@, who) == contribution_of(
                    old(self).ledger@,
                    who,
                ) + amount
                &&& forall|u: u64|
                    u != who ==> contribution_of(final(self).ledger@, u) == contribution_of(
                        old(self).ledger@,
                        u,
                    )
                &&& has_contributor(final(self).ledger@, who)
                &&& forall|i: int|
                    0 <= i < old(self).ledger@.len() ==> final(self).ledger@[i].contributor == old(
                        self,
                    ).ledger@[i].contributor
                &&& has_contributor(old(self).ledger@, who) ==> final(self).ledger@.len() == old(
                    self,
                ).ledger@.len()
                &&& !has_contributor(old(self).ledger@, who) ==> final(self).ledger@.len() == old(
                    self,
                ).ledger@.len() + 1 && final(self).ledger@.last() == (LedgerEntry {
                    contributor: who,
                    amount,
                })
                &&& same_config(*old(self), *final(self))
                &&& same_display(*old(self), *final(self))
            },
    {
        if self.status != Status::Active {
            return Err(Error::CampaignNotActive);
        }
        if now >= self.deadline {
            return Err(Error::CampaignEnded);
        }
        if amount < self.min_contribution {
            return Err(Error::BelowMinimum);
        }
        let ghost before = self.ledger@;
        match find_entry(&self.ledger, who) {
            Some(i) => {
                let e = self.ledger[i];
                proof {
                    lemma_entry_le_sum(before, i as int);
                }
                let updated = LedgerEntry { contributor: who, amount: e.amount + amount };
                self.ledger[i] = updated;
                self.total_raised = self.total_raised + amount;
                proof {
                    lemma_sum_update(before, i as int, updated);
                    assert forall|u: u64|
                        contribution_of(self.ledger@, u) == contribution_of(before, u) + (if u
                            == who {
                            amount as int
                        } else {
                            0
                        }) by {
                        lemma_contribution_update(before, i as int, updated, u);
                    }
                    assert(self.ledger@[i as int].contributor == who);
                }
            },
            None => {
                let entry = LedgerEntry { contributor: who, amount };
                self.ledger.push(entry);
                self.total_raised = self.total_raised + amount;
                proof {
                    lemma_sum_push(before, entry);
                    assert forall|u: u64|
                        contribution_of(self.ledger@, u) == contribution_of(before, u) + (if u
                            == who {
                            amount as int
                        } else {
                            0
                        }) by {
                        lemma_contribution_push(before, entry, u);
                    }
                    assert(self.ledger@[before.len() as int].contributor == who);
                    assert forall|a: int, b: int|
                        0 <= a < b < self.ledger@.len() implies self.ledger@[a].contributor
                        != self.ledger@[b].contributor by {
                        if b < before.len() {
                        } else {
                            assert(self.ledger@[a] == before[a]);
                        }
                    }
                }
            },
        }
        Ok(())
    }

    /// Pays a successful raise out: the platform's fee (if one is
    /// configured) to the platform and the rest to the creator. Legal
    /// exactly when the campaign is active, the deadline has passed, and
    /// the goal was met; the campaign then moves one-way to `Successful`
    /// and holds nothing.
    pub fn withdraw(&mut self, now: u64) -> (r: Result<Vec<Payout>, Error>)
        requires
            old(self).inv(),
            old(self).initialized,
        ensures
            final(self).inv(),
            r is Ok <==> old(self).status is Active && now >= old(self).deadline && old(
                self,
            ).total_raised >= old(self).goal,
            r matches Err(e) ==> *final(self) == *old(self) && e == (if !(old(
                self,
            ).status is Active) {
                Error::CampaignNotActive
            } else if now < old(self).deadline {
                Error::CampaignStillActive
            } else {
                Error::GoalNotReached
            }),
            r matches Ok(plan) ==> {
                let total = old(self).total_raised as int;
                &&& final(self).status is Successful
                &&& final(self).total_raised == 0
                &&& final(self).ledger@.len() == 0
                &&& same_config(*old(self), *final(self))
                &&& same_display(*old(self), *final(self))
                &&& match old(self).platform {
                    Some(pc) => {
                        &&& plan@.len() == 2
                        &&& plan@[0].to == old(self).creator
                        &&& plan@[0].amount == total - fee_of(total, pc.fee_bps as int)
                        &&& plan@[1].to == pc.address
                        &&& plan@[1].amount == fee_of(total, pc.fee_bps as int)
                    },
                    None => {
                        &&& plan@.len() == 1
                        &&& plan@[0].to == old(self).creator
                        &&& plan@[0].amount == total
                    },
                }
                &&& payout_sum(plan@) == total
            },
    {
        if self.status != Status::Active {
            return Err(Error::CampaignNotActive);
        }
        if now < self.deadline {
            return Err(Error::CampaignStillActive);
        }
        if self.total_raised < self.goal {
            return Err(Error::GoalNotReached);
        }
        let total: i128 = self.total_raised;
        let mut plan: Vec<Payout> = Vec::new();
        proof {
            assert(plan@ =~= Seq::<Payout>::empty());
        }
        match self.platform {
            Some(pc) => {
                let fee: i128 = compute_fee(total, pc.fee_bps);
                let to_creator = Payout { to: self.creator, amount: total - fee };
                let to_platform = Payout { to: pc.address, amount: fee };
                plan.push(to_creator);
                plan.push(to_platform);
                proof {
                    lemma_payout_sum_push(Seq::<Payout>::empty(), to_creator);
                    lemma_payout_sum_push(Seq::<Payout>::empty().push(to_creator), to_platform);
                }
            },
            None => {
                let to_creator = Payout { to: self.creator, amount: total };
                plan.push(to_creator);
                proof {
                    lemma_payout_sum_push(Seq::<Payout>::empty(), to_creator);
                }
            },
        }
        self.total_raised = 0;
        self.ledger = Vec::new();
        self.status = Status::Successful;
        Ok(plan)
    }

    /// Repays every contributor their full recorded amount after a missed
    /// goal. Legal exactly when the campaign is active, the deadline has
    /// passed, and the goal was not met; the campaign then moves one-way
    /// to `Refunded` and holds nothing.
    pub fn refund(&mut self, now: u64) -> (r: Result<Vec<Payout>, Error>)
        requires
            old(self).inv(),
            old(self).initialized,
        ensures
            final(self).inv(),
            r is Ok <==> old(self).status is Active && now >= old(self).deadline && old(
                self,
            ).total_raised < old(self).goal,
            r matches Err(e) ==> *final(self) == *old(self) && e == (if !(old(
                self,
            ).status is Active) {
                Error::CampaignNotActive
            } else if now < old(self).deadline {
                Error::CampaignStillActive
            } else {
                Error::GoalReached
            }),
            r matches Ok(plan) ==> {
                &&& final(self).status is Refunded
                &&& final(self).total_raised == 0
                &&& final(self).ledger@.len() == 0
                &&& same_config(*old(self), *final(self))
                &&& same_display(*old(self), *final(self))
                &&& refunds_ledger(plan@, old(self).ledger@)
                &&& payout_sum(plan@) == old(self).total_raised
                &&& forall|u: u64| #[trigger]
                    payout_to(plan@, u) == contribution_of(old(self).ledger@, u)
            },
    {
        if self.status != Status::Active {
            return Err(Error::CampaignNotActive);
        }
        if now < self.deadline {
            return Err(Error::CampaignStillActive);
        }
        if self.total_raised >= self.goal {
            return Err(Error::GoalReached);
        }
        let plan = repayment_plan(&self.ledger);
        proof {
            crate::laws::lemma_refund_conservation(plan@, self.ledger@);
        }
        self.total_raised = 0;
        self.ledger = Vec::new();
        self.status = Status::Refunded;
        Ok(plan)
    }

    /// Calls the campaign off: only the creator may, and only while the
    /// campaign is active; every contributor is repaid in full regardless
    /// of goal and deadline, and the campaign moves one-way to
    /// `Cancelled`.
    pub fn cancel(&mut self, caller: u64) -> (r: Result<Vec<Payout>, Error>)
        requires
            old(self).inv(),
            old(self).initialized,
        ensures
            final(self).inv(),
            r is Ok <==> caller == old(self).creator && old(self).status is Active,
            r matches Err(e) ==> *final(self) == *old(self) && e == (if caller != old(
                self,
            ).creator {
                Error::NotAuthorized
            } else {
                Error::CampaignNotActive
            }),
            r matches Ok(plan) ==> {
                &&& final(self).status is Cancelled
                &&& final(self).total_raised == 0
                &&& final(self).ledger@.len() == 0
                &&& same_config(*old(self), *final(self))
                &&& same_display(*old(self), *final(self))
                &&& refunds_ledger(plan@, old(self).ledger@)
                &&& payout_sum(plan@) == old(self).total_raised
                &&& forall|u: u64| #[trigger]
                    payout_to(plan@, u) == contribution_of(old(self).ledger@, u)
            },
    {
        if caller != self.creator {
            return Err(Error::NotAuthorized);
        }
        if self.status != Status::Active {
            return Err(Error::CampaignNotActive);
        }
        let plan = repayment_plan(&self.ledger);
        proof {
            crate::laws::lemma_refund_conservation(plan@, self.ledger@);
        }
        self.total_raised = 0;
        self.ledger = Vec::new();
        self.status = Status::Cancelled;
        Ok(plan)
    }

    /// Replaces the display fields that are given and leaves the others
    /// untouched. Only the creator may, and only while the campaign is
    /// active.
    pub fn update_metadata(
        &mut self,
        caller: u64,
        title: Option<String>,
        description: Option<String>,
        socials: Option<String>,
    ) -> (r: Result<(), Error>)
        requires
            old(self).inv(),
            old(self).initialized,
        ensures
            final(self).inv(),
            r is Ok <==> caller == old(self).creator && old(self).status is Active,
            r matches Err(e) ==> *final(self) == *old(self) && e == (if caller != old(
                self,
            ).creator {
                Error::NotAuthorized
            } else {
                Error::CampaignNotActive
            }),
            r is Ok ==> {
                &&& final(self).title == (if title is Some {
                    title
                } else {
                    old(self).title
                })
                &&& final(self).description == (if description is Some {
                    description
                } else {
                    old(self).description
                })
                &&& final(self).socials == (if socials is Some {
                    socials
                } else {
                    old(self).socials
                })
                &&& final(self).roadmap@ == old(self).roadmap@
                &&& final(self).ledger@ == old(self).ledger@
                &&& final(self).total_raised == old(self).total_raised
                &&& final(self).status == old(self).status
                &&& same_config(*old(self), *final(self))
            },
    {
        if caller != self.creator {
            return Err(Error::NotAuthorized);
        }
        if self.status != Status::Active {
            return Err(Error::CampaignNotActive);
        }
        if let Some(t) = title {
            self.title = Some(t);
        }
        if let Some(d) = description {
            self.description = Some(d);
        }
        if let Some(s) = socials {
            self.socials = Some(s);
        }
        Ok(())
    }

    /// Appends a milestone. Only the creator may, only while the campaign
    /// is active, only with a date strictly in the future and a non-empty
    /// description; items keep the order of the calls that added them.
    pub fn add_roadmap_item(
        &mut self,
        caller: u64,
        date: u64,
        description: String,
        now: u64,
    ) -> (r: Result<(), Error>)
        requires
            old(self).inv(),
            old(self).initialized,
        ensures
            final(self).inv(),
            r is Ok <==> caller == old(self).creator && old(self).status is Active && date > now
                && description@.len() > 0,
            r matches Err(e) ==> *final(self) == *old(self) && e == (if caller != old(
                self,
            ).creator {
                Error::NotAuthorized
            } else if !(old(self).status is Active) {
                Error::CampaignNotActive
            } else if date <= now {
                Error::DateNotFuture
            } else {
                Error::EmptyDescription
            }),
            r is Ok ==> {
                &&& final(self).roadmap@ == old(self).roadmap@.push(
                    (RoadmapItem { date, description }),
                )
                &&& final(self).title == old(self).title
                &&& final(self).description == old(self).description
                &&& final(self).socials == old(self).socials
                &&& final(self).ledger@ == old(self).ledger@
                &&& final(self).total_raised == old(self).total_raised
                &&& final(self).status == old(self).status
                &&& same_config(*old(self), *final(self))
            },
    {
        if caller != self.creator {
            return Err(Error::NotAuthorized);
        }
        if self.status != Status::Active {
            return Err(Error::CampaignNotActive);
        }
        if date <= now {
            return Err(Error::DateNotFuture);
        }
        if description.as_str().is_empty() {
            return Err(Error::EmptyDescription);
        }
        self.roadmap.push(RoadmapItem { date, description });
        Ok(())
    }

    /// The amount the campaign is trying to raise.
    pub fn goal(&self) -> (r: i128)
        requires
            self.initialized,
        ensures
            r == self.goal,
    {
        self.goal
    }

    /// The time contributions stop being accepted.
    pub fn deadline(&self) -> (r: u64)
        requires
            self.initialized,
        ensures
            r == self.deadline,
    {
        self.deadline
    }

    /// The smallest single contribution accepted.
    pub fn min_contribution(&self) -> (r: i128)
        requires
            self.initialized,
        ensures
            r == self.min_contribution,
    {
        self.min_contribution
    }

    /// The sum of the recorded contributions; zero once the campaign has
    /// left `Active`.
    pub fn total_raised(&self) -> (r: i128)
        requires
            self.initialized,
        ensures
            r == self.total_raised,
    {
        self.total_raised
    }

    /// The cumulative amount `who` has recorded in the ledger; zero for a
    /// principal without an entry.
    pub fn contribution(&self, who: u64) -> (r: i128)
        requires
            self.inv(),
            self.initialized,
        ensures
            r == contribution_of(self.ledger@, who),
    {
        match find_entry(&self.ledger, who) {
            Some(i) => {
                proof {
                    lemma_present_contribution(self.ledger@, i as int);
                }
                self.ledger[i].amount
            },
            None => {
                proof {
                    lemma_absent_contribution_zero(self.ledger@, who);
                }
                0
            },
        }
    }

    /// The campaign's title, if one was set.
    pub fn title(&self) -> (r: &Option<String>)
        requires
            self.initialized,
        ensures
            *r == self.title,
    {
        &self.title
    }

    /// The campaign's description, if one was set.
    pub fn description(&self) -> (r: &Option<String>)
        requires
            self.initialized,
        ensures
            *r == self.description,
    {
        &self.description
    }

    /// The campaign's social links, if they were set.
    pub fn socials(&self) -> (r: &Option<String>)
        requires
            self.initialized,
        ensures
            *r == self.socials,
    {
        &self.socials
    }

    /// The roadmap, in the order the creator added its items.
    pub fn roadmap(&self) -> (r: &Vec<RoadmapItem>)
        requires
            self.initialized,
        ensures
            *r == self.roadmap,
    {
        &self.roadmap
    }

    /// The platform configuration, if one was given at initialization.
    pub fn platform_config(&self) -> (r: Option<PlatformConfig>)
        requires
            self.initialized,
        ensures
            r == self.platform,
    {
        self.platform
    }

    /// Where the campaign stands in its life.
    pub fn status(&self) -> (r: Status)
        requires
            self.initialized,
        ensures
            r == self.status,
    {
        self.status
    }
}

/// One payout per ledger entry, to its contributor, of exactly the
/// recorded amount, in ledger order.
fn repayment_plan(entries: &Vec<LedgerEntry>) -> (plan: Vec<Payout>)
    ensures
        refunds_ledger(plan@, entries@),
{
    let n: usize = entries.len();
    let mut plan: Vec<Payout> = Vec::new();
    let mut idx: usize = 0;
    while idx < n
        invariant
            idx <= n,
            n == entries@.len(),
            plan@.len() == idx,
            forall|j: int|
                0 <= j < idx ==> plan@[j].to == entries@[j].contributor && plan@[j].amount
                    == entries@[j].amount,
        decreases n - idx,
    {
        let e = entries[idx];
        plan.push(Payout { to: e.contributor, amount: e.amount });
        idx += 1;
    }
    plan
}

} // verus!
