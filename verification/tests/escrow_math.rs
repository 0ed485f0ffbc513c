//! Fee, split, majority and payout arithmetic.

use task_escrow::errors::{ErrorKind, EscrowError, VerbittoError};
use task_escrow::escrow::{
    add_i64, add_u64, distribute, majority, platform_fee, split_shares, sub_u64, Payout,
};
use task_escrow::identity::Identity;
use task_escrow::instructions::dispute::{clamped_sub, count_votes, floor_half};
use task_escrow::state::{
    Dispute, DisputeReason, DisputeStatus, Ruling, TaskStatus, Verdict, BPS_DENOMINATOR,
    MAX_FEE_BPS, MAX_REJECTIONS, MAX_REPUTATION_REWARD, MAX_TITLE_LEN,
};

const OVERFLOW: EscrowError = EscrowError::Rule(VerbittoError::ArithmeticOverflow);

#[test]
fn limits_have_their_values() {
    assert_eq!(MAX_FEE_BPS, 3001);
    assert_eq!(BPS_DENOMINATOR, 10000);
    assert_eq!(MAX_TITLE_LEN, 64);
    assert_eq!(MAX_REPUTATION_REWARD, 1000);
    assert_eq!(MAX_REJECTIONS, 3);
}

#[test]
fn fee_is_the_share_rounded_down() {
    assert_eq!(platform_fee(5000, 250), Ok(125));
    assert_eq!(platform_fee(5001, 250), Ok(125));
    assert_eq!(platform_fee(39, 250), Ok(0));
    assert_eq!(platform_fee(40, 250), Ok(1));
    assert_eq!(platform_fee(0, 3001), Ok(0));
    assert_eq!(platform_fee(5000, 0), Ok(0));
    assert_eq!(platform_fee(10000, 3001), Ok(3001));
    assert_eq!(platform_fee(9999, 3001), Ok(3000));
    assert_eq!(platform_fee(1_000_000_000, 1), Ok(100_000));
}

#[test]
fn fee_product_must_fit() {
    assert_eq!(platform_fee(u64::MAX, 2), Err(OVERFLOW));
    assert_eq!(platform_fee(u64::MAX, 1), Ok(u64::MAX / 10000));
    assert_eq!(platform_fee(u64::MAX, 0), Ok(0));
    let largest = u64::MAX / 250;
    assert_eq!(platform_fee(largest, 250), Ok(largest * 250 / 10000));
    assert_eq!(platform_fee(largest + 1, 250), Err(OVERFLOW));
}

#[test]
fn odd_split_favours_creator() {
    assert_eq!(split_shares(4875), (2438, 2437));
    assert_eq!(split_shares(4876), (2438, 2438));
    assert_eq!(split_shares(1), (1, 0));
    assert_eq!(split_shares(0), (0, 0));
    assert_eq!(split_shares(u64::MAX), (u64::MAX / 2 + 1, u64::MAX / 2));
}

#[test]
fn ties_go_to_creator_then_agent() {
    assert_eq!(majority(1, 3, 1), Verdict::AgentWins);
    assert_eq!(majority(3, 1, 1), Verdict::CreatorWins);
    assert_eq!(majority(1, 1, 3), Verdict::Split);
    assert_eq!(majority(2, 2, 2), Verdict::CreatorWins);
    assert_eq!(majority(2, 2, 1), Verdict::CreatorWins);
    assert_eq!(majority(2, 1, 2), Verdict::CreatorWins);
    assert_eq!(majority(1, 2, 2), Verdict::AgentWins);
    assert_eq!(majority(0, 0, 0), Verdict::CreatorWins);
    assert_eq!(majority(0, 0, 1), Verdict::Split);
    assert_eq!(majority(0, 1, 0), Verdict::AgentWins);
}

#[test]
fn each_verdict_has_its_payout() {
    assert_eq!(
        distribute(Verdict::CreatorWins, 5000, 125),
        Ok(Payout { to_creator: 5000, to_agent: 0, to_treasury: 0 })
    );
    assert_eq!(
        distribute(Verdict::AgentWins, 5000, 125),
        Ok(Payout { to_creator: 0, to_agent: 4875, to_treasury: 125 })
    );
    assert_eq!(
        distribute(Verdict::Split, 5000, 125),
        Ok(Payout { to_creator: 2438, to_agent: 2437, to_treasury: 125 })
    );
    assert_eq!(
        distribute(Verdict::Split, 5000, 5000),
        Ok(Payout { to_creator: 0, to_agent: 0, to_treasury: 5000 })
    );
}

#[test]
fn fee_above_bounty_is_refused_where_charged() {
    assert_eq!(distribute(Verdict::AgentWins, 100, 101), Err(OVERFLOW));
    assert_eq!(distribute(Verdict::Split, 100, 101), Err(OVERFLOW));
    assert_eq!(
        distribute(Verdict::CreatorWins, 100, 101),
        Ok(Payout { to_creator: 100, to_agent: 0, to_treasury: 0 })
    );
}

#[test]
fn checked_sums_stop_at_the_bounds() {
    assert_eq!(add_u64(u64::MAX - 1, 1), Ok(u64::MAX));
    assert_eq!(add_u64(u64::MAX, 1), Err(OVERFLOW));
    assert_eq!(sub_u64(5, 5), Ok(0));
    assert_eq!(sub_u64(5, 6), Err(OVERFLOW));
    assert_eq!(add_i64(i64::MAX - 1, 1), Ok(i64::MAX));
    assert_eq!(add_i64(i64::MAX, 1), Err(OVERFLOW));
    assert_eq!(add_i64(i64::MIN, -1), Err(OVERFLOW));
    assert_eq!(add_i64(-5, 3), Ok(-2));
    assert_eq!(VerbittoError::ArithmeticOverflow.kind(), ErrorKind::Arithmetic);
}

#[test]
fn half_is_rounded_down() {
    assert_eq!(floor_half(40), 20);
    assert_eq!(floor_half(41), 20);
    assert_eq!(floor_half(1), 0);
    assert_eq!(floor_half(0), 0);
    assert_eq!(floor_half(1000), 500);
    assert_eq!(floor_half(-1), -1);
    assert_eq!(floor_half(-2), -1);
    assert_eq!(floor_half(-3), -2);
    assert_eq!(floor_half(i64::MAX), i64::MAX / 2);
    assert_eq!(floor_half(i64::MIN), i64::MIN / 2);
}

#[test]
fn clamped_difference_stops_at_the_bounds() {
    assert_eq!(clamped_sub(10, 30), -20);
    assert_eq!(clamped_sub(i64::MIN, 1), i64::MIN);
    assert_eq!(clamped_sub(i64::MIN + 5, 500), i64::MIN);
    assert_eq!(clamped_sub(i64::MIN + 500, 500), i64::MIN);
    assert_eq!(clamped_sub(i64::MIN + 501, 500), i64::MIN + 1);
    assert_eq!(clamped_sub(i64::MAX, -1), i64::MAX);
    assert_eq!(clamped_sub(0, i64::MIN), i64::MAX);
}

fn tallies(c: u16, a: u16, s: u16) -> Dispute {
    Dispute {
        task: Identity::new([1; 32]),
        initiator: Identity::new([2; 32]),
        reason: DisputeReason::Plagiarism,
        evidence_hash: [0; 32],
        status: DisputeStatus::Open,
        votes_for_creator: c,
        votes_for_agent: a,
        votes_for_split: s,
        opened_at: 0,
        resolved_at: 0,
        ruling: Ruling::Pending,
    }
}

#[test]
fn votes_are_counted_over_all_tallies() {
    assert_eq!(count_votes(&tallies(1, 3, 1)), Ok(5));
    assert_eq!(count_votes(&tallies(0, 0, 0)), Ok(0));
    assert_eq!(count_votes(&tallies(u16::MAX, 0, 0)), Ok(u16::MAX));
    assert_eq!(count_votes(&tallies(u16::MAX, 1, 0)), Err(OVERFLOW));
    assert_eq!(count_votes(&tallies(30000, 30000, 5535)), Ok(u16::MAX));
    assert_eq!(count_votes(&tallies(30000, 30000, 5536)), Err(OVERFLOW));
}

#[test]
fn rulings_narrow_to_verdicts() {
    assert_eq!(Ruling::Pending.decided(), None);
    assert_eq!(Ruling::CreatorWins.decided(), Some(Verdict::CreatorWins));
    assert_eq!(Ruling::AgentWins.decided(), Some(Verdict::AgentWins));
    assert_eq!(Ruling::Split.decided(), Some(Verdict::Split));
    assert_eq!(Verdict::CreatorWins.ruling(), Ruling::CreatorWins);
    assert_eq!(Verdict::AgentWins.ruling(), Ruling::AgentWins);
    assert_eq!(Verdict::Split.ruling(), Ruling::Split);
}

#[test]
fn three_statuses_are_terminal() {
    assert!(TaskStatus::Approved.is_terminal());
    assert!(TaskStatus::Cancelled.is_terminal());
    assert!(TaskStatus::Expired.is_terminal());
    assert!(!TaskStatus::Open.is_terminal());
    assert!(!TaskStatus::Claimed.is_terminal());
    assert!(!TaskStatus::Submitted.is_terminal());
    assert!(!TaskStatus::Rejected.is_terminal());
    assert!(!TaskStatus::Disputed.is_terminal());
}

#[test]
fn identities_compare_by_their_bytes() {
    let mut bytes = [9u8; 32];
    let a = Identity::new(bytes);
    assert_eq!(a, Identity::new([9; 32]));
    assert_eq!(a.to_bytes(), bytes);
    bytes[31] = 8;
    assert_ne!(a, Identity::new(bytes));
    bytes[31] = 9;
    bytes[0] = 0;
    assert_ne!(a, Identity::new(bytes));
    assert_eq!(Identity::default(), Identity::new([0; 32]));
    assert_ne!(Identity::default(), a);
}

#[test]
fn every_refusal_has_its_kind() {
    for e in [
        VerbittoError::InvalidFee,
        VerbittoError::InvalidConfig,
        VerbittoError::BountyTooLow,
        VerbittoError::TitleTooLong,
        VerbittoError::DeadlineInPast,
        VerbittoError::InvalidRepReward,
        VerbittoError::InvalidRuling,
        VerbittoError::DisputeTaskMismatch,
        VerbittoError::InvalidTreasury,
        VerbittoError::InvalidTaskIndex,
    ] {
        assert_eq!(e.kind(), ErrorKind::Validation);
    }
    for e in [
        VerbittoError::TaskNotOpen,
        VerbittoError::TaskNotClaimedOrRejected,
        VerbittoError::TaskNotSubmitted,
        VerbittoError::TaskCannotExpire,
        VerbittoError::TemplateInactive,
        VerbittoError::TaskNotDisputable,
        VerbittoError::DisputeNotOpen,
        VerbittoError::TaskNotDisputed,
        VerbittoError::PlatformPaused,
        VerbittoError::PlatformAlreadyPaused,
        VerbittoError::PlatformNotPaused,
        VerbittoError::MaxRejectionsReached,
    ] {
        assert_eq!(e.kind(), ErrorKind::State);
    }
    for e in [
        VerbittoError::NotAssignedAgent,
        VerbittoError::NotTaskCreator,
        VerbittoError::NotTaskParty,
        VerbittoError::PartyCannotVote,
        VerbittoError::NotProfileOwner,
        VerbittoError::InsufficientReputation,
        VerbittoError::NotPlatformAuthority,
    ] {
        assert_eq!(e.kind(), ErrorKind::Authorization);
    }
    for e in [VerbittoError::TaskExpired, VerbittoError::DeadlineNotReached, VerbittoError::VotingPeriodEnded, VerbittoError::VotingPeriodNotEnded] {
        assert_eq!(e.kind(), ErrorKind::Timing);
    }
    assert_eq!(VerbittoError::ArithmeticOverflow.kind(), ErrorKind::Arithmetic);
    assert_eq!(VerbittoError::InsufficientVotes.kind(), ErrorKind::Quorum);
    assert_eq!(EscrowError::Rule(VerbittoError::TaskNotOpen).rule(), Some(VerbittoError::TaskNotOpen));
    assert_eq!(EscrowError::RecordExists.rule(), None);
    assert_eq!(EscrowError::RecordMismatch.rule(), None);
}
