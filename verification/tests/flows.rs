//! Whole lives of a task, from creation to its end.

use task_escrow::contexts::{
    ApproveAndSettle, CancelTask, CastVote, ClaimTask, CreateTask, ExpireTask,
    InitializePlatform, OpenDispute, RegisterAgent, RejectSubmission, ResolveDispute,
    SubmitDeliverable,
};
use task_escrow::errors::{ErrorKind, EscrowError, VerbittoError};
use task_escrow::escrow::Payout;
use task_escrow::events::{DisputeResolved, TaskCreated, TaskSettled};
use task_escrow::identity::Identity;
use task_escrow::instructions::{
    approve_and_settle_at, cancel_task, cast_vote_at, claim_task_at, create_task_at, expire_task_at,
    initialize_platform, open_dispute_at, register_agent_at, reject_submission, resolve_dispute_at,
    submit_deliverable,
};
use task_escrow::state::{
    AgentProfile, CreatorCounter, Dispute, DisputeReason, DisputeStatus, Platform, Ruling, Task,
    TaskStatus,
};

fn id(n: u8) -> Identity {
    Identity::new([n; 32])
}

const AUTHORITY: u8 = 1;
const TREASURY: u8 = 2;
const CREATOR: u8 = 3;
const AGENT: u8 = 4;
const TASK_KEY: u8 = 50;
const DISPUTE_KEY: u8 = 60;

/// A platform with a fee of 2.5%, a minimum bounty of 1000, a voting period
/// of 100 s, a quorum of 3, no minimum reputation and a grace period of 50 s.
fn platform() -> Platform {
    let mut ctx =
        InitializePlatform { platform: None, treasury: id(TREASURY), authority: id(AUTHORITY) };
    initialize_platform(&mut ctx, 250, 1000, 100, 3, 0, 50).unwrap();
    ctx.platform.unwrap()
}

fn profile_of(agent: u8) -> AgentProfile {
    let mut ctx =
        RegisterAgent { agent_profile_key: id(agent + 100), agent_profile: None, authority: id(agent) };
    register_agent_at(&mut ctx, 0b0000_0101, 10).unwrap();
    ctx.agent_profile.unwrap()
}

/// Creates the creator's first task, with a bounty of 5000 and a deadline of
/// 1000, at time 20.
fn created() -> (Task, CreatorCounter, Platform, TaskCreated) {
    let mut ctx = CreateTask {
        task_key: id(TASK_KEY),
        task: None,
        creator_counter: None,
        platform: platform(),
        creator: id(CREATOR),
    };
    let ev =
        create_task_at(&mut ctx, String::from("Label 500 images"), [7; 32], 5000, 0, 1000, 40, 20)
            .unwrap();
    (ctx.task.unwrap(), ctx.creator_counter.unwrap(), ctx.platform, ev)
}

fn claimed() -> (Task, Platform) {
    let (task, _, platform, _) = created();
    let mut ctx = ClaimTask {
        task_key: id(TASK_KEY),
        task,
        platform,
        agent_profile: profile_of(AGENT),
        agent: id(AGENT),
    };
    claim_task_at(&mut ctx, 30).unwrap();
    (ctx.task, ctx.platform)
}

fn submit(task: Task, platform: Platform) -> Task {
    let mut ctx = SubmitDeliverable { task_key: id(TASK_KEY), task, platform, agent: id(AGENT) };
    submit_deliverable(&mut ctx, [9; 32]).unwrap();
    ctx.task
}

fn submitted() -> (Task, Platform) {
    let (task, platform) = claimed();
    (submit(task, platform), platform)
}

fn reject(task: Task) -> Task {
    let mut ctx = RejectSubmission { task_key: id(TASK_KEY), task, creator: id(CREATOR) };
    reject_submission(&mut ctx, [1; 32]).unwrap();
    ctx.task
}

fn disputed() -> (Task, Dispute, Platform) {
    let (task, platform) = submitted();
    let mut ctx = OpenDispute {
        task_key: id(TASK_KEY),
        task,
        dispute_key: id(DISPUTE_KEY),
        dispute: None,
        initiator: id(AGENT),
    };
    open_dispute_at(&mut ctx, DisputeReason::QualityIssue, [5; 32], 200).unwrap();
    (ctx.task, ctx.dispute.unwrap(), platform)
}

fn vote(task: &Task, dispute: Dispute, platform: Platform, voter: u8, ruling: Ruling) -> Dispute {
    let mut ctx = CastVote {
        task_key: id(TASK_KEY),
        task: task.clone(),
        dispute_key: id(DISPUTE_KEY),
        dispute,
        platform,
        vote: None,
        voter_profile: profile_of(voter),
        voter: id(voter),
    };
    cast_vote_at(&mut ctx, ruling, 250).unwrap();
    ctx.dispute
}

fn resolution(task: Task, dispute: Dispute, platform: Platform) -> ResolveDispute {
    ResolveDispute {
        dispute_key: id(DISPUTE_KEY),
        dispute,
        task_key: id(TASK_KEY),
        task,
        platform,
        creator: id(CREATOR),
        agent: id(AGENT),
        agent_profile: profile_of(AGENT),
        treasury: id(TREASURY),
        caller: id(99),
    }
}

#[test]
fn creation_takes_the_bounty_into_custody() {
    let (task, counter, platform, ev) = created();
    assert_eq!(task.held_lamports(), 5000);
    assert_eq!(task.bounty_lamports, 5000);
    assert_eq!(counter, CreatorCounter { authority: id(CREATOR), task_count: 1 });
    assert_eq!(platform.task_count, 1);
    assert_eq!(
        ev,
        TaskCreated {
            task: id(TASK_KEY),
            creator: id(CREATOR),
            task_index: 0,
            bounty_lamports: 5000,
            deadline: 1000,
        }
    );
    assert_eq!(
        task,
        Task {
            creator: id(CREATOR),
            task_index: 0,
            bounty_lamports: 5000,
            status: TaskStatus::Open,
            agent: Identity::default(),
            deadline: 1000,
            created_at: 20,
            settled_at: 0,
            reputation_reward: 40,
            title: String::from("Label 500 images"),
            description_hash: [7; 32],
            deliverable_hash: [0; 32],
            template_index: 0,
            rejection_count: 0,
        }
    );
}

#[test]
fn approved_task_pays_agent_and_treasury() {
    let (task, platform) = claimed();
    assert_eq!(task.status, TaskStatus::Claimed);
    assert_eq!(task.agent, id(AGENT));
    let task = submit(task, platform);
    assert_eq!(task.status, TaskStatus::Submitted);
    assert_eq!(task.deliverable_hash, [9; 32]);

    let mut ctx = ApproveAndSettle {
        task_key: id(TASK_KEY),
        task,
        platform,
        creator: id(CREATOR),
        agent: id(AGENT),
        agent_profile: profile_of(AGENT),
        treasury: id(TREASURY),
    };
    let (ev, payout) = approve_and_settle_at(&mut ctx, 300).unwrap();
    assert_eq!(payout, Payout { to_creator: 0, to_agent: 4875, to_treasury: 125 });
    assert_eq!(
        ev,
        TaskSettled {
            task: id(TASK_KEY),
            agent: id(AGENT),
            payout_lamports: 4875,
            fee_lamports: 125,
        }
    );
    assert_eq!(ctx.task.status, TaskStatus::Approved);
    assert!(ctx.task.status.is_terminal());
    assert_eq!(ctx.task.settled_at, 300);
    assert_eq!(ctx.task.held_lamports(), 0);
    assert_eq!(ctx.platform.total_settled_lamports, 5000);
    assert_eq!(ctx.agent_profile.tasks_completed, 1);
    assert_eq!(ctx.agent_profile.reputation_score, 40);
    assert_eq!(ctx.agent_profile.total_earned_lamports, 4875);
}

#[test]
fn third_rejection_escalates_to_dispute() {
    let (task, platform) = submitted();
    let task = reject(task);
    assert_eq!(task.status, TaskStatus::Rejected);
    assert_eq!(task.rejection_count, 1);
    let task = reject(submit(task, platform));
    assert_eq!(task.status, TaskStatus::Rejected);
    assert_eq!(task.rejection_count, 2);
    let task = reject(submit(task, platform));
    assert_eq!(task.status, TaskStatus::Disputed);
    assert_eq!(task.rejection_count, 3);
    assert_eq!(task.held_lamports(), 5000);
}

#[test]
fn majority_for_agent_pays_agent_less_fee() {
    let (task, dispute, platform) = disputed();
    assert_eq!(task.status, TaskStatus::Disputed);
    let dispute = vote(&task, dispute, platform, 11, Ruling::AgentWins);
    let dispute = vote(&task, dispute, platform, 12, Ruling::AgentWins);
    let dispute = vote(&task, dispute, platform, 13, Ruling::CreatorWins);
    let dispute = vote(&task, dispute, platform, 14, Ruling::Split);
    let dispute = vote(&task, dispute, platform, 15, Ruling::AgentWins);
    assert_eq!(
        (dispute.votes_for_creator, dispute.votes_for_agent, dispute.votes_for_split),
        (1, 3, 1)
    );

    let mut ctx = resolution(task, dispute, platform);
    let (ev, payout) = resolve_dispute_at(&mut ctx, 300).unwrap();
    assert_eq!(
        ev,
        DisputeResolved {
            dispute: id(DISPUTE_KEY),
            task: id(TASK_KEY),
            ruling: Ruling::AgentWins,
            total_votes: 5,
        }
    );
    assert_eq!(payout, Payout { to_creator: 0, to_agent: 4875, to_treasury: 125 });
    assert_eq!(ctx.task.status, TaskStatus::Approved);
    assert_eq!(ctx.task.settled_at, 300);
    assert_eq!(ctx.dispute.status, DisputeStatus::Resolved);
    assert_eq!(ctx.dispute.ruling, Ruling::AgentWins);
    assert_eq!(ctx.dispute.resolved_at, 300);
    assert_eq!(ctx.agent_profile.disputes_won, 1);
    assert_eq!(ctx.agent_profile.disputes_lost, 0);
    assert_eq!(ctx.agent_profile.tasks_disputed, 1);
    assert_eq!(ctx.agent_profile.reputation_score, 40);
    assert_eq!(ctx.agent_profile.total_earned_lamports, 4875);
    assert_eq!(ctx.platform.total_settled_lamports, 5000);
}

#[test]
fn claimed_task_expires_only_after_grace_period() {
    let (task, platform) = claimed();
    let mut ctx = ExpireTask {
        task_key: id(TASK_KEY),
        task,
        creator: id(CREATOR),
        platform,
        caller: id(77),
    };
    let before = ctx.clone();
    // The deadline is 1000 and the grace period 50.
    let early = expire_task_at(&mut ctx, 1000).unwrap_err();
    assert_eq!(early, EscrowError::Rule(VerbittoError::DeadlineNotReached));
    assert_eq!(early.rule().unwrap().kind(), ErrorKind::Timing);
    assert_eq!(
        expire_task_at(&mut ctx, 1049),
        Err(EscrowError::Rule(VerbittoError::DeadlineNotReached))
    );
    assert_eq!(ctx, before);

    let (ev, payout) = expire_task_at(&mut ctx, 1050).unwrap();
    assert_eq!(payout, Payout { to_creator: 5000, to_agent: 0, to_treasury: 0 });
    assert_eq!(ev.refunded_lamports, 5000);
    assert_eq!(ev.creator, id(CREATOR));
    assert_eq!(ctx.task.status, TaskStatus::Expired);
    assert_eq!(ctx.task.held_lamports(), 0);
}

#[test]
fn open_task_expires_at_its_deadline() {
    let (task, _, platform, _) = created();
    let mut ctx = ExpireTask {
        task_key: id(TASK_KEY),
        task,
        creator: id(CREATOR),
        platform,
        caller: id(77),
    };
    assert_eq!(
        expire_task_at(&mut ctx, 999),
        Err(EscrowError::Rule(VerbittoError::DeadlineNotReached))
    );
    let (_, payout) = expire_task_at(&mut ctx, 1000).unwrap();
    assert_eq!(payout.to_creator, 5000);
    assert_eq!(ctx.task.status, TaskStatus::Expired);
}

#[test]
fn wrong_task_index_is_refused_and_counter_stays() {
    let (_, counter, platform, _) = created();
    // The creator's counter stands at 1 now.
    for declared in [0u64, 2, 7] {
        let mut ctx = CreateTask {
            task_key: id(TASK_KEY + 1),
            task: None,
            creator_counter: Some(counter),
            platform,
            creator: id(CREATOR),
        };
        let before = ctx.clone();
        let r = create_task_at(&mut ctx, String::from("Second"), [7; 32], 5000, declared, 1000, 0, 20);
        assert_eq!(r, Err(EscrowError::Rule(VerbittoError::InvalidTaskIndex)));
        assert_eq!(ctx, before);
        assert_eq!(ctx.creator_counter.unwrap().task_count, 1);
    }
    let mut ctx = CreateTask {
        task_key: id(TASK_KEY + 1),
        task: None,
        creator_counter: Some(counter),
        platform,
        creator: id(CREATOR),
    };
    create_task_at(&mut ctx, String::from("Second"), [7; 32], 5000, 1, 1000, 0, 20).unwrap();
    assert_eq!(ctx.creator_counter.unwrap().task_count, 2);
    assert_eq!(ctx.platform.task_count, 2);
    assert_eq!(ctx.task.unwrap().task_index, 1);
}

#[test]
fn first_task_must_declare_index_zero() {
    let mut ctx = CreateTask {
        task_key: id(TASK_KEY),
        task: None,
        creator_counter: None,
        platform: platform(),
        creator: id(CREATOR),
    };
    let r = create_task_at(&mut ctx, String::from("First"), [7; 32], 5000, 1, 1000, 0, 20);
    assert_eq!(r, Err(EscrowError::Rule(VerbittoError::InvalidTaskIndex)));
    assert_eq!(ctx.creator_counter, None);
    assert_eq!(ctx.task, None);
}

#[test]
fn cancelled_task_returns_whole_bounty() {
    let (task, _, _, _) = created();
    let mut ctx = CancelTask { task_key: id(TASK_KEY), task, creator: id(CREATOR) };
    let (ev, payout) = cancel_task(&mut ctx).unwrap();
    assert_eq!(payout, Payout { to_creator: 5000, to_agent: 0, to_treasury: 0 });
    assert_eq!(ev.refunded_lamports, 5000);
    assert_eq!(ev.task, id(TASK_KEY));
    assert_eq!(ctx.task.status, TaskStatus::Cancelled);
    assert_eq!(ctx.task.held_lamports(), 0);
}

#[test]
fn creator_win_refunds_without_fee_and_costs_reputation() {
    let (task, dispute, platform) = disputed();
    let dispute = vote(&task, dispute, platform, 11, Ruling::CreatorWins);
    let dispute = vote(&task, dispute, platform, 12, Ruling::CreatorWins);
    let dispute = vote(&task, dispute, platform, 13, Ruling::AgentWins);
    let mut ctx = resolution(task, dispute, platform);
    let (ev, payout) = resolve_dispute_at(&mut ctx, 300).unwrap();
    assert_eq!(ev.ruling, Ruling::CreatorWins);
    assert_eq!(ev.total_votes, 3);
    assert_eq!(payout, Payout { to_creator: 5000, to_agent: 0, to_treasury: 0 });
    assert_eq!(ctx.task.status, TaskStatus::Cancelled);
    assert_eq!(ctx.platform.total_settled_lamports, 0);
    assert_eq!(ctx.agent_profile.disputes_lost, 1);
    assert_eq!(ctx.agent_profile.disputes_won, 0);
    assert_eq!(ctx.agent_profile.tasks_disputed, 1);
    // Half of the reward of 40 is taken.
    assert_eq!(ctx.agent_profile.reputation_score, -20);
    assert_eq!(ctx.agent_profile.total_earned_lamports, 0);
}

#[test]
fn split_gives_creator_the_larger_half() {
    let (task, dispute, platform) = disputed();
    let dispute = vote(&task, dispute, platform, 11, Ruling::Split);
    let dispute = vote(&task, dispute, platform, 12, Ruling::Split);
    let dispute = vote(&task, dispute, platform, 13, Ruling::AgentWins);
    let mut ctx = resolution(task, dispute, platform);
    let (ev, payout) = resolve_dispute_at(&mut ctx, 300).unwrap();
    assert_eq!(ev.ruling, Ruling::Split);
    // 5000 less the fee of 125 leaves 4875.
    assert_eq!(payout, Payout { to_creator: 2438, to_agent: 2437, to_treasury: 125 });
    assert_eq!(ctx.task.status, TaskStatus::Approved);
    assert_eq!(ctx.platform.total_settled_lamports, 5000);
    assert_eq!(ctx.agent_profile.tasks_disputed, 1);
    assert_eq!(ctx.agent_profile.disputes_won, 0);
    assert_eq!(ctx.agent_profile.disputes_lost, 0);
    assert_eq!(ctx.agent_profile.reputation_score, 0);
    assert_eq!(ctx.agent_profile.total_earned_lamports, 2437);
}

#[test]
fn rejected_task_can_be_submitted_again() {
    let (task, platform) = submitted();
    let task = reject(task);
    let mut ctx = SubmitDeliverable { task_key: id(TASK_KEY), task, platform, agent: id(AGENT) };
    let ev = submit_deliverable(&mut ctx, [8; 32]).unwrap();
    assert_eq!(ev.deliverable_hash, [8; 32]);
    assert_eq!(ctx.task.status, TaskStatus::Submitted);
    assert_eq!(ctx.task.deliverable_hash, [8; 32]);
    assert_eq!(ctx.task.rejection_count, 1);
}

#[test]
fn ended_task_admits_no_operation() {
    let (task, _, platform, _) = created();
    let mut cancel = CancelTask { task_key: id(TASK_KEY), task, creator: id(CREATOR) };
    cancel_task(&mut cancel).unwrap();
    let task = cancel.task;

    let mut ctx = ClaimTask {
        task_key: id(TASK_KEY),
        task: task.clone(),
        platform,
        agent_profile: profile_of(AGENT),
        agent: id(AGENT),
    };
    assert_eq!(claim_task_at(&mut ctx, 30), Err(EscrowError::Rule(VerbittoError::TaskNotOpen)));
    let mut ctx = CancelTask { task_key: id(TASK_KEY), task: task.clone(), creator: id(CREATOR) };
    assert_eq!(cancel_task(&mut ctx), Err(EscrowError::Rule(VerbittoError::TaskNotOpen)));
    let mut ctx = ExpireTask {
        task_key: id(TASK_KEY),
        task: task.clone(),
        creator: id(CREATOR),
        platform,
        caller: id(77),
    };
    assert_eq!(
        expire_task_at(&mut ctx, 5000),
        Err(EscrowError::Rule(VerbittoError::TaskCannotExpire))
    );
    let mut ctx = OpenDispute {
        task_key: id(TASK_KEY),
        task,
        dispute_key: id(DISPUTE_KEY),
        dispute: None,
        initiator: id(CREATOR),
    };
    assert_eq!(
        open_dispute_at(&mut ctx, DisputeReason::Other, [0; 32], 30),
        Err(EscrowError::Rule(VerbittoError::TaskNotDisputable))
    );
}
