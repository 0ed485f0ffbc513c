//! The operations that read the transaction clock, called where no
//! transaction is running: there is no clock, and nothing changes.

use anchor_lang::prelude::ProgramError;
use task_escrow::clock::{time_of, transaction_time};
use task_escrow::contexts::{
    ApproveAndSettle, CastVote, ClaimTask, CreateTask, CreateTaskFromTemplate, ExpireTask,
    OpenDispute, RegisterAgent, ResolveDispute,
};
use task_escrow::errors::EscrowError;
use task_escrow::identity::Identity;
use task_escrow::instructions::{
    approve_and_settle, cast_vote, claim_task, create_task, create_task_from_template,
    expire_task, open_dispute, register_agent, resolve_dispute,
};
use task_escrow::state::{
    AgentProfile, Dispute, DisputeReason, DisputeStatus, Platform, Ruling, Task, TaskCategory,
    TaskStatus, TaskTemplate,
};

fn id(n: u8) -> Identity {
    Identity::new([n; 32])
}

fn platform() -> Platform {
    Platform {
        authority: id(1),
        fee_bps: 250,
        min_bounty_lamports: 1000,
        treasury: id(2),
        task_count: 0,
        template_count: 0,
        total_settled_lamports: 0,
        dispute_voting_period: 100,
        dispute_min_votes: 3,
        min_voter_reputation: 0,
        claim_grace_period: 50,
        is_paused: false,
    }
}

fn profile(owner: u8) -> AgentProfile {
    AgentProfile {
        authority: id(owner),
        reputation_score: 0,
        tasks_completed: 0,
        tasks_disputed: 0,
        disputes_won: 0,
        disputes_lost: 0,
        total_earned_lamports: 0,
        registered_at: 5,
        skill_tags: 1,
    }
}

fn task(status: TaskStatus) -> Task {
    Task {
        creator: id(3),
        task_index: 0,
        bounty_lamports: 5000,
        status,
        agent: if status == TaskStatus::Open { Identity::default() } else { id(4) },
        deadline: 1000,
        created_at: 20,
        settled_at: 0,
        reputation_reward: 40,
        title: String::from("Label 500 images"),
        description_hash: [7; 32],
        deliverable_hash: [0; 32],
        template_index: 0,
        rejection_count: 0,
    }
}

fn dispute() -> Dispute {
    Dispute {
        task: id(50),
        initiator: id(4),
        reason: DisputeReason::QualityIssue,
        evidence_hash: [5; 32],
        status: DisputeStatus::Open,
        votes_for_creator: 1,
        votes_for_agent: 3,
        votes_for_split: 1,
        opened_at: 200,
        resolved_at: 0,
        ruling: Ruling::Pending,
    }
}

#[test]
fn no_clock_outside_a_transaction() {
    assert_eq!(transaction_time(), Err(EscrowError::ClockUnavailable));
    assert_eq!(EscrowError::ClockUnavailable.rule(), None);
}

#[test]
fn successful_reading_passes_its_time_on() {
    assert_eq!(time_of(Ok(1_700_000_000)), Ok(1_700_000_000));
    assert_eq!(time_of(Ok(0)), Ok(0));
    assert_eq!(time_of(Ok(-1)), Ok(-1));
    assert_eq!(time_of(Ok(i64::MAX)), Ok(i64::MAX));
    assert_eq!(time_of(Ok(i64::MIN)), Ok(i64::MIN));
}

#[test]
fn failed_reading_is_an_unavailable_clock() {
    assert_eq!(time_of(Err(ProgramError::UnsupportedSysvar)), Err(EscrowError::ClockUnavailable));
    assert_eq!(time_of(Err(ProgramError::Custom(7))), Err(EscrowError::ClockUnavailable));
    assert_eq!(time_of(Err(ProgramError::InvalidArgument)), Err(EscrowError::ClockUnavailable));
}

#[test]
fn registration_needs_the_clock() {
    let mut ctx = RegisterAgent { agent_profile_key: id(40), agent_profile: None, authority: id(4) };
    assert_eq!(register_agent(&mut ctx, 1), Err(EscrowError::ClockUnavailable));
    assert_eq!(ctx.agent_profile, None);
}

#[test]
fn task_creation_needs_the_clock() {
    let mut ctx = CreateTask {
        task_key: id(50),
        task: None,
        creator_counter: None,
        platform: platform(),
        creator: id(3),
    };
    let before = ctx.clone();
    let r = create_task(&mut ctx, String::from("Title"), [7; 32], 5000, 0, 1000, 40);
    assert_eq!(r, Err(EscrowError::ClockUnavailable));
    assert_eq!(ctx, before);

    let mut ctx = CreateTaskFromTemplate {
        task_key: id(50),
        task: None,
        creator_counter: None,
        template: TaskTemplate {
            creator: id(9),
            template_index: 5,
            title: String::from("Review a pull request"),
            description_hash: [4; 32],
            default_bounty_lamports: 2500,
            times_used: 9,
            category: TaskCategory::CodeReview,
            is_active: true,
        },
        platform: platform(),
        creator: id(3),
    };
    let before = ctx.clone();
    let r = create_task_from_template(&mut ctx, 0, 1000, 40, 0);
    assert_eq!(r, Err(EscrowError::ClockUnavailable));
    assert_eq!(ctx, before);
}

#[test]
fn claim_approval_and_expiry_need_the_clock() {
    let mut ctx = ClaimTask {
        task_key: id(50),
        task: task(TaskStatus::Open),
        platform: platform(),
        agent_profile: profile(4),
        agent: id(4),
    };
    let before = ctx.clone();
    assert_eq!(claim_task(&mut ctx), Err(EscrowError::ClockUnavailable));
    assert_eq!(ctx, before);

    let mut ctx = ApproveAndSettle {
        task_key: id(50),
        task: task(TaskStatus::Submitted),
        platform: platform(),
        creator: id(3),
        agent: id(4),
        agent_profile: profile(4),
        treasury: id(2),
    };
    let before = ctx.clone();
    assert_eq!(approve_and_settle(&mut ctx), Err(EscrowError::ClockUnavailable));
    assert_eq!(ctx, before);

    let mut ctx = ExpireTask {
        task_key: id(50),
        task: task(TaskStatus::Open),
        creator: id(3),
        platform: platform(),
        caller: id(77),
    };
    let before = ctx.clone();
    assert_eq!(expire_task(&mut ctx), Err(EscrowError::ClockUnavailable));
    assert_eq!(ctx, before);
}

#[test]
fn disputes_need_the_clock() {
    let mut ctx = OpenDispute {
        task_key: id(50),
        task: task(TaskStatus::Submitted),
        dispute_key: id(60),
        dispute: None,
        initiator: id(4),
    };
    let before = ctx.clone();
    assert_eq!(
        open_dispute(&mut ctx, DisputeReason::Other, [5; 32]),
        Err(EscrowError::ClockUnavailable)
    );
    assert_eq!(ctx, before);

    let mut ctx = CastVote {
        task_key: id(50),
        task: task(TaskStatus::Disputed),
        dispute_key: id(60),
        dispute: dispute(),
        platform: platform(),
        vote: None,
        voter_profile: profile(11),
        voter: id(11),
    };
    let before = ctx.clone();
    assert_eq!(cast_vote(&mut ctx, Ruling::Split), Err(EscrowError::ClockUnavailable));
    assert_eq!(ctx, before);

    let mut ctx = ResolveDispute {
        dispute_key: id(60),
        dispute: dispute(),
        task_key: id(50),
        task: task(TaskStatus::Disputed),
        platform: platform(),
        creator: id(3),
        agent: id(4),
        agent_profile: profile(4),
        treasury: id(2),
        caller: id(99),
    };
    let before = ctx.clone();
    assert_eq!(resolve_dispute(&mut ctx), Err(EscrowError::ClockUnavailable));
    assert_eq!(ctx, before);
}
