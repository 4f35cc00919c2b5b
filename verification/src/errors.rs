//! The ways a campaign operation can be refused.

use vstd::prelude::*;

verus! {

/// Why an operation on the campaign was rejected. Every rejection leaves
/// the campaign state exactly as it was.
#[derive(Clone, Copy, Debug, PartialEq, Eq, Structural)]
pub enum Error {
    /// A second `initialize` on a campaign that already holds a record.
    AlreadyInitialized,
    /// A contribution at or after the deadline.
    CampaignEnded,
    /// A contribution under the per-contribution floor.
    BelowMinimum,
    /// `withdraw` or `refund` before the deadline.
    CampaignStillActive,
    /// `withdraw` when the total raised is under the goal.
    GoalNotReached,
    /// `refund` when the goal was met; the funds belong to the creator.
    GoalReached,
    /// An operation that needs an active campaign found a terminal state.
    CampaignNotActive,
    /// The caller is not the creator of the campaign.
    NotAuthorized,
    /// A roadmap date that does not lie in the future.
    DateNotFuture,
    /// An empty roadmap description.
    EmptyDescription,
    /// A platform fee above 100%.
    FeeTooHigh,
}

} // verus!
