//! The campaign lifecycle: initialization, contributions, withdraw,
//! refund and cancel.

use crowdfund::{Campaign, Error, Payout, Status};

const CREATOR: u64 = 1;
const ASSET: u64 = 2;
const ALICE: u64 = 10;
const BOB: u64 = 11;

/// A fresh campaign with the given terms, created at ledger time 0.
fn new_campaign(goal: i128, deadline: u64, min_contribution: i128) -> Campaign {
    let mut c = Campaign::new();
    c.initialize(CREATOR, ASSET, goal, deadline, min_contribution, None)
        .unwrap();
    c
}

#[test]
fn test_initialize() {
    let deadline = 3600; // 1 hour from now
    let goal: i128 = 1_000_000;
    let min_contribution: i128 = 1_000;

    let c = new_campaign(goal, deadline, min_contribution);

    assert_eq!(c.goal(), goal);
    assert_eq!(c.deadline(), deadline);
    assert_eq!(c.min_contribution(), min_contribution);
    assert_eq!(c.total_raised(), 0);
}

#[test]
fn test_double_initialize_rejected() {
    let mut c = new_campaign(1_000_000, 3600, 1_000);

    let r = c.initialize(CREATOR, ASSET, 1_000_000, 3600, 1_000, None);
    assert_eq!(r, Err(Error::AlreadyInitialized));
}

#[test]
fn test_contribute() {
    let mut c = new_campaign(1_000_000, 3600, 1_000);

    c.contribute(ALICE, 500_000, 0).unwrap();

    assert_eq!(c.total_raised(), 500_000);
    assert_eq!(c.contribution(ALICE), 500_000);
}

#[test]
fn test_multiple_contributions() {
    let mut c = new_campaign(1_000_000, 3600, 1_000);

    c.contribute(ALICE, 600_000, 0).unwrap();
    c.contribute(BOB, 400_000, 0).unwrap();

    assert_eq!(c.total_raised(), 1_000_000);
    assert_eq!(c.contribution(ALICE), 600_000);
    assert_eq!(c.contribution(BOB), 400_000);
}

#[test]
fn test_contribution_accumulates() {
    let mut c = new_campaign(1_000_000, 3600, 1_000);

    c.contribute(ALICE, 300_000, 0).unwrap();
    c.contribute(BOB, 100_000, 1).unwrap();
    c.contribute(ALICE, 200_000, 2).unwrap();

    assert_eq!(c.contribution(ALICE), 500_000);
    assert_eq!(c.contribution(BOB), 100_000);
    assert_eq!(c.total_raised(), 600_000);
}

#[test]
fn test_contribute_after_deadline_rejected() {
    let deadline = 100;
    let mut c = new_campaign(1_000_000, deadline, 1_000);

    let r = c.contribute(ALICE, 500_000, deadline + 1);
    assert_eq!(r, Err(Error::CampaignEnded));
    assert_eq!(c.total_raised(), 0);
}

#[test]
fn test_contribute_at_exact_deadline_rejected() {
    let deadline = 100;
    let mut c = new_campaign(1_000_000, deadline, 1_000);

    let r = c.contribute(ALICE, 500_000, deadline);
    assert_eq!(r, Err(Error::CampaignEnded));
}

#[test]
fn test_withdraw_after_goal_met() {
    let deadline = 3600;
    let goal: i128 = 1_000_000;
    let mut c = new_campaign(goal, deadline, 1_000);

    c.contribute(ALICE, 1_000_000, 0).unwrap();
    assert_eq!(c.total_raised(), goal);

    // Move past deadline.
    let plan = c.withdraw(deadline + 1).unwrap();

    // After withdrawal, total_raised resets to 0.
    assert_eq!(c.total_raised(), 0);

    // Creator should have received the funds.
    let creator_balance = 10_000_000 + plan.iter().filter(|p| p.to == CREATOR).map(|p| p.amount).sum::<i128>();
    assert_eq!(creator_balance, 10_000_000 + 1_000_000);
}

#[test]
fn test_withdraw_before_deadline_rejected() {
    let mut c = new_campaign(1_000_000, 3600, 1_000);

    c.contribute(ALICE, 1_000_000, 0).unwrap();

    let r = c.withdraw(100); // deadline not passed
    assert_eq!(r, Err(Error::CampaignStillActive));
    assert_eq!(c.total_raised(), 1_000_000);
}

#[test]
fn test_withdraw_goal_not_reached_rejected() {
    let deadline = 3600;
    let mut c = new_campaign(1_000_000, deadline, 1_000);

    c.contribute(ALICE, 500_000, 0).unwrap();

    let r = c.withdraw(deadline + 1);
    assert_eq!(r, Err(Error::GoalNotReached));
    assert_eq!(c.total_raised(), 500_000);
}

#[test]
fn test_refund_when_goal_not_met() {
    let deadline = 3600;
    let mut c = new_campaign(1_000_000, deadline, 1_000);

    c.contribute(ALICE, 300_000, 0).unwrap();
    c.contribute(BOB, 200_000, 0).unwrap();

    // Move past deadline — goal not met.
    let plan = c.refund(deadline + 1).unwrap();

    // Both contributors should get their tokens back.
    assert_eq!(
        plan,
        vec![
            Payout { to: ALICE, amount: 300_000 },
            Payout { to: BOB, amount: 200_000 },
        ]
    );
    assert_eq!(c.total_raised(), 0);
    assert_eq!(c.status(), Status::Refunded);
}

#[test]
fn test_refund_when_goal_reached_rejected() {
    let deadline = 3600;
    let mut c = new_campaign(1_000_000, deadline, 1_000);

    c.contribute(ALICE, 1_000_000, 0).unwrap();

    let r = c.refund(deadline + 1);
    assert_eq!(r, Err(Error::GoalReached));
    assert_eq!(c.total_raised(), 1_000_000);
}

#[test]
fn test_double_withdraw_rejected() {
    let deadline = 3600;
    let mut c = new_campaign(1_000_000, deadline, 1_000);

    c.contribute(ALICE, 1_000_000, 0).unwrap();

    c.withdraw(deadline + 1).unwrap();
    let r = c.withdraw(deadline + 1); // status is Successful
    assert_eq!(r, Err(Error::CampaignNotActive));
}

#[test]
fn test_double_refund_rejected() {
    let deadline = 3600;
    let mut c = new_campaign(1_000_000, deadline, 1_000);

    c.contribute(ALICE, 500_000, 0).unwrap();

    c.refund(deadline + 1).unwrap();
    let r = c.refund(deadline + 1); // status is Refunded
    assert_eq!(r, Err(Error::CampaignNotActive));
}

#[test]
fn test_cancel_with_no_contributions() {
    let mut c = new_campaign(1_000_000, 3600, 1_000);

    let plan = c.cancel(CREATOR).unwrap();

    assert_eq!(c.total_raised(), 0);
    assert!(plan.is_empty());
    assert_eq!(c.status(), Status::Cancelled);
}

#[test]
fn test_cancel_with_contributions() {
    let mut c = new_campaign(1_000_000, 3600, 1_000);

    c.contribute(ALICE, 300_000, 0).unwrap();
    c.contribute(BOB, 200_000, 0).unwrap();

    let plan = c.cancel(CREATOR).unwrap();

    assert_eq!(
        plan,
        vec![
            Payout { to: ALICE, amount: 300_000 },
            Payout { to: BOB, amount: 200_000 },
        ]
    );
    assert_eq!(c.total_raised(), 0);
}

#[test]
fn test_cancel_by_non_creator_rejected() {
    let non_creator: u64 = 99;
    let mut c = new_campaign(1_000_000, 3600, 1_000);

    let r = c.cancel(non_creator);
    assert_eq!(r, Err(Error::NotAuthorized));
    assert_eq!(c.status(), Status::Active);
}

#[test]
fn test_contribute_after_cancel_rejected() {
    let mut c = new_campaign(1_000_000, 3600, 1_000);

    c.cancel(CREATOR).unwrap();
    let r = c.contribute(ALICE, 10_000, 0);
    assert_eq!(r, Err(Error::CampaignNotActive));
}

#[test]
fn test_cancel_after_withdraw_rejected() {
    let deadline = 3600;
    let mut c = new_campaign(1_000_000, deadline, 1_000);

    c.contribute(ALICE, 1_000_000, 0).unwrap();
    c.withdraw(deadline + 1).unwrap();

    let r = c.cancel(CREATOR);
    assert_eq!(r, Err(Error::CampaignNotActive));
}

#[test]
fn test_contribute_below_minimum_rejected() {
    let mut c = new_campaign(1_000_000, 3600, 10_000);

    let r = c.contribute(ALICE, 5_000, 0);
    assert_eq!(r, Err(Error::BelowMinimum));
    assert_eq!(c.total_raised(), 0);
}

#[test]
fn test_contribute_exact_minimum() {
    let mut c = new_campaign(1_000_000, 3600, 10_000);

    c.contribute(ALICE, 10_000, 0).unwrap();

    assert_eq!(c.total_raised(), 10_000);
    assert_eq!(c.contribution(ALICE), 10_000);
}

#[test]
fn test_contribute_above_minimum() {
    let mut c = new_campaign(1_000_000, 3600, 10_000);

    c.contribute(ALICE, 50_000, 0).unwrap();

    assert_eq!(c.total_raised(), 50_000);
    assert_eq!(c.contribution(ALICE), 50_000);
}

#[test]
fn test_withdraw_at_exact_deadline() {
    let deadline = 3600;
    let mut c = new_campaign(1_000_000, deadline, 1_000);

    c.contribute(ALICE, 1_000_000, 0).unwrap();

    // `now == deadline` counts as ended, so the withdraw is legal.
    let plan = c.withdraw(deadline).unwrap();
    assert_eq!(plan, vec![Payout { to: CREATOR, amount: 1_000_000 }]);
    assert_eq!(c.status(), Status::Successful);
}

#[test]
fn test_contribution_zero_for_unknown() {
    let mut c = new_campaign(1_000_000, 3600, 1_000);

    c.contribute(ALICE, 10_000, 0).unwrap();
    assert_eq!(c.contribution(BOB), 0);
}
