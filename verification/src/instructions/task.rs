//! The task lifecycle: creation, claim, submission, approval, rejection,
//! cancellation and expiry, with the custody of the bounty.

use vstd::prelude::*;
use crate::clock::transaction_time;
use crate::contexts::{
    ApproveAndSettle, CancelTask, ClaimTask, CreateTask, CreateTaskFromTemplate, ExpireTask,
    RejectSubmission, SubmitDeliverable,
};
use crate::errors::{EscrowError, VerbittoError};
use crate::escrow::{
    add_i64, add_u64, custody_step, fee_of, fits_i64, fits_u64, overflow, platform_fee, sub_u64,
    Payout,
};
use crate::events::{
    DeliverableSubmitted, SubmissionRejected, TaskCancelled, TaskClaimed, TaskCreated,
    TaskExpired, TaskSettled,
};
use crate::identity::{zero_bytes, Identity};
use crate::state::{
    lifecycle_edge, AgentProfile, CreatorCounter, Platform, Task, TaskStatus, TaskTemplate,
    MAX_REJECTIONS, MAX_REPUTATION_REWARD, MAX_TITLE_LEN,
};

verus! {

/// The index that the next task of the counter's creator must declare: 0
/// before the creator's first task.
pub open spec fn next_task_index(counter: Option<CreatorCounter>) -> u64 {
    match counter {
        Some(c) => c.task_count,
        None => 0,
    }
}

/// A task as creation leaves it: open, unclaimed, never rejected, with no
/// deliverable.
pub open spec fn new_task(
    creator: Identity,
    task_index: u64,
    bounty: u64,
    deadline: i64,
    now: i64,
    reputation_reward: i64,
    title: String,
    description_hash: [u8; 32],
    template_index: u64,
) -> Task {
    Task {
        creator,
        task_index,
        bounty_lamports: bounty,
        status: TaskStatus::Open,
        agent: Identity::unset(),
        deadline,
        created_at: now,
        settled_at: 0,
        reputation_reward,
        title,
        description_hash,
        deliverable_hash: zero_bytes(),
        template_index,
        rejection_count: 0,
    }
}

/// Why the creation of a task with these terms is refused on this platform
/// and with this counter, if it is. The conditions are tested in this order
/// and the first that holds decides.
pub open spec fn task_terms_refusal(
    platform: Platform,
    counter: Option<CreatorCounter>,
    title: Seq<char>,
    bounty: u64,
    task_index: u64,
    deadline: i64,
    reputation_reward: i64,
    now: i64,
) -> Option<EscrowError> {
    if platform.is_paused {
        Some(EscrowError::Rule(VerbittoError::PlatformPaused))
    } else if bounty < platform.min_bounty_lamports {
        Some(EscrowError::Rule(VerbittoError::BountyTooLow))
    } else if title.len() > MAX_TITLE_LEN {
        Some(EscrowError::Rule(VerbittoError::TitleTooLong))
    } else if deadline <= now {
        Some(EscrowError::Rule(VerbittoError::DeadlineInPast))
    } else if !(0 <= reputation_reward <= MAX_REPUTATION_REWARD) {
        Some(EscrowError::Rule(VerbittoError::InvalidRepReward))
    } else if task_index != next_task_index(counter) {
        Some(EscrowError::Rule(VerbittoError::InvalidTaskIndex))
    } else if !fits_u64(next_task_index(counter) + 1) {
        Some(overflow())
    } else if !fits_u64(platform.task_count + 1) {
        Some(overflow())
    } else {
        None
    }
}

/// Why a task cannot be created in the place `task` for `creator` with the
/// counter `counter`, if it cannot.
pub open spec fn task_place_refusal(
    task: Option<Task>,
    counter: Option<CreatorCounter>,
    creator: Identity,
) -> Option<EscrowError> {
    if task is Some {
        Some(EscrowError::RecordExists)
    } else if counter is Some && counter->0.authority != creator {
        Some(EscrowError::RecordMismatch)
    } else {
        None
    }
}

/// Why `create_task` refuses, if it does.
pub open spec fn create_task_refusal(
    ctx: CreateTask,
    title: Seq<char>,
    bounty_lamports: u64,
    task_index: u64,
    deadline: i64,
    reputation_reward: i64,
    now: i64,
) -> Option<EscrowError> {
    if task_place_refusal(ctx.task, ctx.creator_counter, ctx.creator) is Some {
        task_place_refusal(ctx.task, ctx.creator_counter, ctx.creator)
    } else {
        task_terms_refusal(
            ctx.platform,
            ctx.creator_counter,
            title,
            bounty_lamports,
            task_index,
            deadline,
            reputation_reward,
            now,
        )
    }
}

/// The records after `create_task` has succeeded.
pub open spec fn create_task_records(
    ctx: CreateTask,
    title: String,
    description_hash: [u8; 32],
    bounty_lamports: u64,
    task_index: u64,
    deadline: i64,
    reputation_reward: i64,
    now: i64,
) -> CreateTask {
    CreateTask {
        task: Some(
            new_task(
                ctx.creator,
                task_index,
                bounty_lamports,
                deadline,
                now,
                reputation_reward,
                title,
                description_hash,
                0,
            ),
        ),
        creator_counter: Some(
            CreatorCounter { authority: ctx.creator, task_count: (task_index + 1) as u64 },
        ),
        platform: Platform { task_count: (ctx.platform.task_count + 1) as u64, ..ctx.platform },
        ..ctx
    }
}

/// Tests the place of a new task and the creator's counter.
fn check_task_place(task: &Option<Task>, counter: &Option<CreatorCounter>, creator: &Identity) -> (r:
    Result<(), EscrowError>)
    ensures
        r is Ok <==> task_place_refusal(*task, *counter, *creator) is None,
        r matches Err(e) ==> task_place_refusal(*task, *counter, *creator) == Some(e),
{
    if task.is_some() {
        return Err(EscrowError::RecordExists);
    }
    match counter {
        Some(c) => {
            if c.authority != *creator {
                return Err(EscrowError::RecordMismatch);
            }
        },
        None => {},
    }
    Ok(())
}

/// Tests the terms of a new task. On success returns the creator's and the
/// platform's next task counts.
fn check_task_terms(
    platform: &Platform,
    counter: &Option<CreatorCounter>,
    title: &String,
    bounty: u64,
    task_index: u64,
    deadline: i64,
    reputation_reward: i64,
    now: i64,
) -> (r: Result<(u64, u64), EscrowError>)
    ensures
        r is Ok <==> task_terms_refusal(
            *platform,
            *counter,
            title@,
            bounty,
            task_index,
            deadline,
            reputation_reward,
            now,
        ) is None,
        r matches Err(e) ==> task_terms_refusal(
            *platform,
            *counter,
            title@,
            bounty,
            task_index,
            deadline,
            reputation_reward,
            now,
        ) == Some(e),
        r matches Ok(counts) ==> counts.0 == task_index + 1 && counts.1 == platform.task_count + 1,
{
    if platform.is_paused {
        return Err(EscrowError::Rule(VerbittoError::PlatformPaused));
    }
    if bounty < platform.min_bounty_lamports {
        return Err(EscrowError::Rule(VerbittoError::BountyTooLow));
    }
    if title.as_str().unicode_len() > MAX_TITLE_LEN {
        return Err(EscrowError::Rule(VerbittoError::TitleTooLong));
    }
    if deadline <= now {
        return Err(EscrowError::Rule(VerbittoError::DeadlineInPast));
    }
    if reputation_reward < 0 || reputation_reward > MAX_REPUTATION_REWARD {
        return Err(EscrowError::Rule(VerbittoError::InvalidRepReward));
    }
    let expected: u64 = match counter {
        Some(c) => c.task_count,
        None => 0,
    };
    if task_index != expected {
        return Err(EscrowError::Rule(VerbittoError::InvalidTaskIndex));
    }
    let creator_count = add_u64(expected, 1)?;
    let platform_count = add_u64(platform.task_count, 1)?;
    Ok((creator_count, platform_count))
}

/// The event that the creation of a task publishes. It names the bounty that
/// the creator deposits.
pub open spec fn create_task_event(
    ctx: CreateTask,
    bounty_lamports: u64,
    task_index: u64,
    deadline: i64,
) -> TaskCreated {
    TaskCreated {
        task: ctx.task_key,
        creator: ctx.creator,
        task_index,
        bounty_lamports,
        deadline,
    }
}

/// What `create_task` leaves of the records and what it returns when the
/// clock shows `now`: the refusal and the records as they were, or the new
/// records and the event.
pub open spec fn create_task_outcome(
    ctx: CreateTask,
    title: String,
    description_hash: [u8; 32],
    bounty_lamports: u64,
    task_index: u64,
    deadline: i64,
    reputation_reward: i64,
    now: i64,
) -> (CreateTask, Result<TaskCreated, EscrowError>) {
    match create_task_refusal(
        ctx,
        title@,
        bounty_lamports,
        task_index,
        deadline,
        reputation_reward,
        now,
    ) {
        Some(e) => (ctx, Err(e)),
        None => (
            create_task_records(
                ctx,
                title,
                description_hash,
                bounty_lamports,
                task_index,
                deadline,
                reputation_reward,
                now,
            ),
            Ok(create_task_event(ctx, bounty_lamports, task_index, deadline)),
        ),
    }
}

/// Creates a task at time `now` and takes its bounty into the task's custody.
///
/// The declared index must be the creator's next one; the creator's counter
/// then moves on by one. The caller deposits the bounty named in the event.
pub fn create_task_at(
    ctx: &mut CreateTask,
    title: String,
    description_hash: [u8; 32],
    bounty_lamports: u64,
    task_index: u64,
    deadline: i64,
    reputation_reward: i64,
    now: i64,
) -> (r: Result<TaskCreated, EscrowError>)
    ensures
        (*final(ctx), r) == create_task_outcome(
            *old(ctx),
            title,
            description_hash,
            bounty_lamports,
            task_index,
            deadline,
            reputation_reward,
            now,
        ),
        r is Ok ==> {
            &&& final(ctx).task->0.wf()
            &&& final(ctx).task->0.spec_held_lamports() == bounty_lamports
        },
{
    check_task_place(&ctx.task, &ctx.creator_counter, &ctx.creator)?;
    let counts = check_task_terms(
        &ctx.platform,
        &ctx.creator_counter,
        &title,
        bounty_lamports,
        task_index,
        deadline,
        reputation_reward,
        now,
    )?;
    ctx.creator_counter = Some(CreatorCounter { authority: ctx.creator, task_count: counts.0 });
    ctx.platform.task_count = counts.1;
    ctx.task = Some(
        Task {
            creator: ctx.creator,
            task_index,
            bounty_lamports,
            status: TaskStatus::Open,
            agent: Identity::default(),
            deadline,
            created_at: now,
            settled_at: 0,
            reputation_reward,
            title,
            description_hash,
            deliverable_hash: [0u8; 32],
            template_index: 0,
            rejection_count: 0,
        },
    );
    Ok(
        TaskCreated {
            task: ctx.task_key,
            creator: ctx.creator,
            task_index,
            bounty_lamports,
            deadline,
        },
    )
}

/// Creates a task and takes its bounty into the task's custody. The time is
/// read from the transaction clock.
///
/// The declared index must be the creator's next one; the creator's counter
/// then moves on by one. The caller deposits the bounty named in the event.
/// A refusal changes nothing.
pub fn create_task(
    ctx: &mut CreateTask,
    title: String,
    description_hash: [u8; 32],
    bounty_lamports: u64,
    task_index: u64,
    deadline: i64,
    reputation_reward: i64,
) -> (r: Result<TaskCreated, EscrowError>)
    ensures
        r == Err::<TaskCreated, EscrowError>(EscrowError::ClockUnavailable)
            && *final(ctx) == *old(ctx)
            || exists|now: i64|
                (*final(ctx), r) == create_task_outcome(
                    *old(ctx),
                    title,
                    description_hash,
                    bounty_lamports,
                    task_index,
                    deadline,
                    reputation_reward,
                    now,
                ),
{
    let now = transaction_time()?;
    create_task_at(
        ctx,
        title,
        description_hash,
        bounty_lamports,
        task_index,
        deadline,
        reputation_reward,
        now,
    )
}

/// The bounty of a task made from `template`: the one supplied, or the
/// template's default where none is supplied.
pub open spec fn template_bounty(template: TaskTemplate, bounty_lamports: u64) -> u64 {
    if bounty_lamports > 0 {
        bounty_lamports
    } else {
        template.default_bounty_lamports
    }
}

/// Why `create_task_from_template` refuses, if it does. The conditions are
/// tested in this order and the first that holds decides.
pub open spec fn create_task_from_template_refusal(
    ctx: CreateTaskFromTemplate,
    bounty_lamports: u64,
    deadline: i64,
    reputation_reward: i64,
    task_index: u64,
    now: i64,
) -> Option<EscrowError> {
    if task_place_refusal(ctx.task, ctx.creator_counter, ctx.creator) is Some {
        task_place_refusal(ctx.task, ctx.creator_counter, ctx.creator)
    } else if !ctx.template.is_active {
        Some(EscrowError::Rule(VerbittoError::TemplateInactive))
    } else if task_terms_refusal(
        ctx.platform,
        ctx.creator_counter,
        ctx.template.title@,
        template_bounty(ctx.template, bounty_lamports),
        task_index,
        deadline,
        reputation_reward,
        now,
    ) is Some {
        task_terms_refusal(
            ctx.platform,
            ctx.creator_counter,
            ctx.template.title@,
            template_bounty(ctx.template, bounty_lamports),
            task_index,
            deadline,
            reputation_reward,
            now,
        )
    } else if !fits_u64(ctx.template.times_used + 1) {
        Some(overflow())
    } else if !fits_u64(ctx.template.template_index + 1) {
        Some(overflow())
    } else {
        None
    }
}

/// The records after `create_task_from_template` has succeeded.
pub open spec fn create_task_from_template_records(
    ctx: CreateTaskFromTemplate,
    bounty_lamports: u64,
    deadline: i64,
    reputation_reward: i64,
    task_index: u64,
    now: i64,
) -> CreateTaskFromTemplate {
    CreateTaskFromTemplate {
        task: Some(
            new_task(
                ctx.creator,
                task_index,
                template_bounty(ctx.template, bounty_lamports),
                deadline,
                now,
                reputation_reward,
                ctx.template.title,
                ctx.template.description_hash,
                (ctx.template.template_index + 1) as u64,
            ),
        ),
        creator_counter: Some(
            CreatorCounter { authority: ctx.creator, task_count: (task_index + 1) as u64 },
        ),
        template: TaskTemplate {
            times_used: (ctx.template.times_used + 1) as u64,
            ..ctx.template
        },
        platform: Platform { task_count: (ctx.platform.task_count + 1) as u64, ..ctx.platform },
        ..ctx
    }
}

/// The event that `create_task_from_template` publishes. It names the bounty
/// that the creator deposits.
pub open spec fn create_task_from_template_event(
    ctx: CreateTaskFromTemplate,
    bounty_lamports: u64,
    deadline: i64,
    task_index: u64,
) -> TaskCreated {
    TaskCreated {
        task: ctx.task_key,
        creator: ctx.creator,
        task_index,
        bounty_lamports: template_bounty(ctx.template, bounty_lamports),
        deadline,
    }
}

/// What `create_task_from_template` leaves of the records and what it
/// returns when the clock shows `now`: the refusal and the records as they
/// were, or the new records and the event.
pub open spec fn create_task_from_template_outcome(
    ctx: CreateTaskFromTemplate,
    bounty_lamports: u64,
    deadline: i64,
    reputation_reward: i64,
    task_index: u64,
    now: i64,
) -> (CreateTaskFromTemplate, Result<TaskCreated, EscrowError>) {
    match create_task_from_template_refusal(
        ctx,
        bounty_lamports,
        deadline,
        reputation_reward,
        task_index,
        now,
    ) {
        Some(e) => (ctx, Err(e)),
        None => (
            create_task_from_template_records(
                ctx,
                bounty_lamports,
                deadline,
                reputation_reward,
                task_index,
                now,
            ),
            Ok(create_task_from_template_event(ctx, bounty_lamports, deadline, task_index)),
        ),
    }
}

/// Creates a task from an active template at time `now` and takes its bounty
/// into the task's custody.
///
/// Title and description come from the template, which counts one more use
/// and is recorded in the task by its index plus one. A bounty of zero stands
/// for the template's default. The terms are tested as `create_task` tests
/// them. The caller deposits the bounty named in the event.
pub fn create_task_from_template_at(
    ctx: &mut CreateTaskFromTemplate,
    bounty_lamports: u64,
    deadline: i64,
    reputation_reward: i64,
    task_index: u64,
    now: i64,
) -> (r: Result<TaskCreated, EscrowError>)
    ensures
        (*final(ctx), r) == create_task_from_template_outcome(
            *old(ctx),
            bounty_lamports,
            deadline,
            reputation_reward,
            task_index,
            now,
        ),
        r matches Ok(ev) ==> {
            &&& final(ctx).task->0.wf()
            &&& final(ctx).task->0.spec_held_lamports() == ev.bounty_lamports
        },
{
    check_task_place(&ctx.task, &ctx.creator_counter, &ctx.creator)?;
    if !ctx.template.is_active {
        return Err(EscrowError::Rule(VerbittoError::TemplateInactive));
    }
    let bounty: u64 = if bounty_lamports > 0 {
        bounty_lamports
    } else {
        ctx.template.default_bounty_lamports
    };
    let counts = check_task_terms(
        &ctx.platform,
        &ctx.creator_counter,
        &ctx.template.title,
        bounty,
        task_index,
        deadline,
        reputation_reward,
        now,
    )?;
    let times_used = add_u64(ctx.template.times_used, 1)?;
    let template_index = add_u64(ctx.template.template_index, 1)?;
    let title = ctx.template.title.clone();

    ctx.creator_counter = Some(CreatorCounter { authority: ctx.creator, task_count: counts.0 });
    ctx.platform.task_count = counts.1;
    ctx.template.times_used = times_used;
    ctx.task = Some(
        Task {
            creator: ctx.creator,
            task_index,
            bounty_lamports: bounty,
            status: TaskStatus::Open,
            agent: Identity::default(),
            deadline,
            created_at: now,
            settled_at: 0,
            reputation_reward,
            title,
            description_hash: ctx.template.description_hash,
            deliverable_hash: [0u8; 32],
            template_index,
            rejection_count: 0,
        },
    );
    Ok(
        TaskCreated {
            task: ctx.task_key,
            creator: ctx.creator,
            task_index,
            bounty_lamports: bounty,
            deadline,
        },
    )
}

/// Creates a task from an active template and takes its bounty into the
/// task's custody. The time is read from the transaction clock.
///
/// Title and description come from the template, which counts one more use
/// and is recorded in the task by its index plus one. A bounty of zero stands
/// for the template's default. The terms are tested as `create_task` tests
/// them. The caller deposits the bounty named in the event. A refusal changes
/// nothing.
pub fn create_task_from_template(
    ctx: &mut CreateTaskFromTemplate,
    bounty_lamports: u64,
    deadline: i64,
    reputation_reward: i64,
    task_index: u64,
) -> (r: Result<TaskCreated, EscrowError>)
    ensures
        r == Err::<TaskCreated, EscrowError>(EscrowError::ClockUnavailable)
            && *final(ctx) == *old(ctx)
            || exists|now: i64|
                (*final(ctx), r) == create_task_from_template_outcome(
                    *old(ctx),
                    bounty_lamports,
                    deadline,
                    reputation_reward,
                    task_index,
                    now,
                ),
{
    let now = transaction_time()?;
    create_task_from_template_at(ctx, bounty_lamports, deadline, reputation_reward, task_index, now)
}

/// Why `claim_task` refuses, if it does. The conditions are tested in this
/// order and the first that holds decides.
pub open spec fn claim_task_refusal(ctx: ClaimTask, now: i64) -> Option<EscrowError> {
    if ctx.agent_profile.authority != ctx.agent {
        Some(EscrowError::RecordMismatch)
    } else if ctx.platform.is_paused {
        Some(EscrowError::Rule(VerbittoError::PlatformPaused))
    } else if !(ctx.task.status is Open) {
        Some(EscrowError::Rule(VerbittoError::TaskNotOpen))
    } else if now >= ctx.task.deadline {
        Some(EscrowError::Rule(VerbittoError::TaskExpired))
    } else {
        None
    }
}

/// The records after `claim_task` has succeeded.
pub open spec fn claim_task_records(ctx: ClaimTask) -> ClaimTask {
    ClaimTask { task: Task { agent: ctx.agent, status: TaskStatus::Claimed, ..ctx.task }, ..ctx }
}

/// The event that `claim_task` publishes.
pub open spec fn claim_task_event(ctx: ClaimTask) -> TaskClaimed {
    TaskClaimed { task: ctx.task_key, agent: ctx.agent, task_index: ctx.task.task_index }
}

/// What `claim_task` leaves of the records and what it returns when the clock
/// shows `now`: the refusal and the records as they were, or the new records
/// and the event.
pub open spec fn claim_task_outcome(ctx: ClaimTask, now: i64) -> (
    ClaimTask,
    Result<TaskClaimed, EscrowError>,
) {
    match claim_task_refusal(ctx, now) {
        Some(e) => (ctx, Err(e)),
        None => (claim_task_records(ctx), Ok(claim_task_event(ctx))),
    }
}

/// A registered agent claims an open task at time `now`, before its deadline,
/// and becomes its assigned agent.
pub fn claim_task_at(ctx: &mut ClaimTask, now: i64) -> (r: Result<TaskClaimed, EscrowError>)
    ensures
        (*final(ctx), r) == claim_task_outcome(*old(ctx), now),
        r is Ok ==> {
            &&& old(ctx).task.wf() ==> final(ctx).task.wf()
            &&& lifecycle_edge(old(ctx).task.status, final(ctx).task.status)
            &&& custody_step(old(ctx).task, final(ctx).task, Payout::nothing())
        },
{
    if ctx.agent_profile.authority != ctx.agent {
        return Err(EscrowError::RecordMismatch);
    }
    if ctx.platform.is_paused {
        return Err(EscrowError::Rule(VerbittoError::PlatformPaused));
    }
    if ctx.task.status != TaskStatus::Open {
        return Err(EscrowError::Rule(VerbittoError::TaskNotOpen));
    }
    if now >= ctx.task.deadline {
        return Err(EscrowError::Rule(VerbittoError::TaskExpired));
    }
    ctx.task.agent = ctx.agent;
    ctx.task.status = TaskStatus::Claimed;
    Ok(TaskClaimed { task: ctx.task_key, agent: ctx.agent, task_index: ctx.task.task_index })
}

/// A registered agent claims an open task before its deadline and becomes its
/// assigned agent. The time is read from the transaction clock. A refusal
/// changes nothing.
pub fn claim_task(ctx: &mut ClaimTask) -> (r: Result<TaskClaimed, EscrowError>)
    ensures
        r == Err::<TaskClaimed, EscrowError>(EscrowError::ClockUnavailable)
            && *final(ctx) == *old(ctx)
            || exists|now: i64|
                (*final(ctx), r) == claim_task_outcome(*old(ctx), now),
{
    let now = transaction_time()?;
    claim_task_at(ctx, now)
}

/// Why `submit_deliverable` refuses, if it does. The conditions are tested in
/// this order and the first that holds decides.
pub open spec fn submit_deliverable_refusal(ctx: SubmitDeliverable) -> Option<EscrowError> {
    if ctx.platform.is_paused {
        Some(EscrowError::Rule(VerbittoError::PlatformPaused))
    } else if !(ctx.task.status is Claimed || ctx.task.status is Rejected) {
        Some(EscrowError::Rule(VerbittoError::TaskNotClaimedOrRejected))
    } else if ctx.task.agent != ctx.agent {
        Some(EscrowError::Rule(VerbittoError::NotAssignedAgent))
    } else {
        None
    }
}

/// The records after `submit_deliverable` has succeeded.
pub open spec fn submit_deliverable_records(
    ctx: SubmitDeliverable,
    deliverable_hash: [u8; 32],
) -> SubmitDeliverable {
    SubmitDeliverable {
        task: Task { deliverable_hash, status: TaskStatus::Submitted, ..ctx.task },
        ..ctx
    }
}

/// The event that `submit_deliverable` publishes.
pub open spec fn submit_deliverable_event(
    ctx: SubmitDeliverable,
    deliverable_hash: [u8; 32],
) -> DeliverableSubmitted {
    DeliverableSubmitted { task: ctx.task_key, agent: ctx.agent, deliverable_hash }
}

/// What `submit_deliverable` leaves of the records and what it returns: the
/// refusal and the records as they were, or the new records and the event.
pub open spec fn submit_deliverable_outcome(
    ctx: SubmitDeliverable,
    deliverable_hash: [u8; 32],
) -> (SubmitDeliverable, Result<DeliverableSubmitted, EscrowError>) {
    match submit_deliverable_refusal(ctx) {
        Some(e) => (ctx, Err(e)),
        None => (
            submit_deliverable_records(ctx, deliverable_hash),
            Ok(submit_deliverable_event(ctx, deliverable_hash)),
        ),
    }
}

/// The assigned agent submits a deliverable for a claimed or rejected task.
/// A refusal changes nothing.
pub fn submit_deliverable(ctx: &mut SubmitDeliverable, deliverable_hash: [u8; 32]) -> (r: Result<
    DeliverableSubmitted,
    EscrowError,
>)
    ensures
        (*final(ctx), r) == submit_deliverable_outcome(*old(ctx), deliverable_hash),
        r is Ok ==> {
            &&& old(ctx).task.wf() ==> final(ctx).task.wf()
            &&& lifecycle_edge(old(ctx).task.status, final(ctx).task.status)
            &&& custody_step(old(ctx).task, final(ctx).task, Payout::nothing())
        },
{
    if ctx.platform.is_paused {
        return Err(EscrowError::Rule(VerbittoError::PlatformPaused));
    }
    if ctx.task.status != TaskStatus::Claimed && ctx.task.status != TaskStatus::Rejected {
        return Err(EscrowError::Rule(VerbittoError::TaskNotClaimedOrRejected));
    }
    if ctx.task.agent != ctx.agent {
        return Err(EscrowError::Rule(VerbittoError::NotAssignedAgent));
    }
    ctx.task.deliverable_hash = deliverable_hash;
    ctx.task.status = TaskStatus::Submitted;
    Ok(DeliverableSubmitted { task: ctx.task_key, agent: ctx.agent, deliverable_hash })
}

/// The fee charged when the task of `ctx` is approved.
pub open spec fn settlement_fee(ctx: ApproveAndSettle) -> u64 {
    fee_of(ctx.task.bounty_lamports as int, ctx.platform.fee_bps as int) as u64
}

/// What approval pays out of the task: the bounty less the fee to the agent,
/// the fee to the treasury.
pub open spec fn approve_and_settle_payout(ctx: ApproveAndSettle) -> Payout {
    Payout {
        to_creator: 0,
        to_agent: (ctx.task.bounty_lamports - settlement_fee(ctx)) as u64,
        to_treasury: settlement_fee(ctx),
    }
}

/// The agent's profile after an approved task that granted `reward` and paid
/// `paid`.
pub open spec fn profile_after_approval(profile: AgentProfile, reward: i64, paid: u64) -> AgentProfile {
    AgentProfile {
        tasks_completed: (profile.tasks_completed + 1) as u64,
        reputation_score: (profile.reputation_score + reward) as i64,
        total_earned_lamports: (profile.total_earned_lamports + paid) as u64,
        ..profile
    }
}

/// Why `approve_and_settle` refuses, if it does. The conditions are tested in
/// this order and the first that holds decides.
pub open spec fn approve_and_settle_refusal(ctx: ApproveAndSettle) -> Option<EscrowError> {
    let bounty = ctx.task.bounty_lamports;
    if ctx.agent != ctx.task.agent {
        Some(EscrowError::Rule(VerbittoError::NotAssignedAgent))
    } else if ctx.agent_profile.authority != ctx.task.agent {
        Some(EscrowError::RecordMismatch)
    } else if ctx.treasury != ctx.platform.treasury {
        Some(EscrowError::Rule(VerbittoError::InvalidTreasury))
    } else if !(ctx.task.status is Submitted) {
        Some(EscrowError::Rule(VerbittoError::TaskNotSubmitted))
    } else if ctx.task.creator != ctx.creator {
        Some(EscrowError::Rule(VerbittoError::NotTaskCreator))
    } else if !fits_u64(bounty * ctx.platform.fee_bps) {
        Some(overflow())
    } else if settlement_fee(ctx) > bounty {
        Some(overflow())
    } else if !fits_u64(ctx.platform.total_settled_lamports + bounty) {
        Some(overflow())
    } else if !fits_u64(ctx.agent_profile.tasks_completed + 1) {
        Some(overflow())
    } else if !fits_i64(ctx.agent_profile.reputation_score + ctx.task.reputation_reward) {
        Some(overflow())
    } else if !fits_u64(
        ctx.agent_profile.total_earned_lamports + approve_and_settle_payout(ctx).to_agent,
    ) {
        Some(overflow())
    } else {
        None
    }
}

/// The records after `approve_and_settle` has succeeded at time `now`.
pub open spec fn approve_and_settle_records(ctx: ApproveAndSettle, now: i64) -> ApproveAndSettle {
    ApproveAndSettle {
        task: Task { status: TaskStatus::Approved, settled_at: now, ..ctx.task },
        platform: Platform {
            total_settled_lamports: (ctx.platform.total_settled_lamports
                + ctx.task.bounty_lamports) as u64,
            ..ctx.platform
        },
        agent_profile: profile_after_approval(
            ctx.agent_profile,
            ctx.task.reputation_reward,
            approve_and_settle_payout(ctx).to_agent,
        ),
        ..ctx
    }
}

/// The event that `approve_and_settle` publishes.
pub open spec fn approve_and_settle_event(ctx: ApproveAndSettle) -> TaskSettled {
    TaskSettled {
        task: ctx.task_key,
        agent: ctx.task.agent,
        payout_lamports: approve_and_settle_payout(ctx).to_agent,
        fee_lamports: approve_and_settle_payout(ctx).to_treasury,
    }
}

/// What `approve_and_settle` leaves of the records and what it returns when
/// the clock shows `now`: the refusal and the records as they were, or the
/// new records with the event and the payout.
pub open spec fn approve_and_settle_outcome(ctx: ApproveAndSettle, now: i64) -> (
    ApproveAndSettle,
    Result<(TaskSettled, Payout), EscrowError>,
) {
    match approve_and_settle_refusal(ctx) {
        Some(e) => (ctx, Err(e)),
        None => (
            approve_and_settle_records(ctx, now),
            Ok((approve_and_settle_event(ctx), approve_and_settle_payout(ctx))),
        ),
    }
}

/// The creator approves the submission at time `now`, which settles the
/// escrow: the agent gets the bounty less the platform fee, the treasury gets
/// the fee, and the task ends approved. The agent's profile counts the task,
/// the reward and the earnings; the platform counts the bounty as settled.
pub fn approve_and_settle_at(ctx: &mut ApproveAndSettle, now: i64) -> (r: Result<
    (TaskSettled, Payout),
    EscrowError,
>)
    ensures
        (*final(ctx), r) == approve_and_settle_outcome(*old(ctx), now),
        r matches Ok(done) ==> {
            &&& done.1.to_treasury == fee_of(
                old(ctx).task.bounty_lamports as int,
                old(ctx).platform.fee_bps as int,
            )
            &&& done.1.to_treasury <= old(ctx).task.bounty_lamports
            &&& done.1.total() == old(ctx).task.bounty_lamports
            &&& old(ctx).task.wf() ==> final(ctx).task.wf()
            &&& lifecycle_edge(old(ctx).task.status, final(ctx).task.status)
            &&& custody_step(old(ctx).task, final(ctx).task, done.1)
        },
{
    if ctx.agent != ctx.task.agent {
        return Err(EscrowError::Rule(VerbittoError::NotAssignedAgent));
    }
    if ctx.agent_profile.authority != ctx.task.agent {
        return Err(EscrowError::RecordMismatch);
    }
    if ctx.treasury != ctx.platform.treasury {
        return Err(EscrowError::Rule(VerbittoError::InvalidTreasury));
    }
    if ctx.task.status != TaskStatus::Submitted {
        return Err(EscrowError::Rule(VerbittoError::TaskNotSubmitted));
    }
    if ctx.task.creator != ctx.creator {
        return Err(EscrowError::Rule(VerbittoError::NotTaskCreator));
    }
    let bounty = ctx.task.bounty_lamports;
    let fee = platform_fee(bounty, ctx.platform.fee_bps)?;
    let agent_payout = sub_u64(bounty, fee)?;
    let total_settled = add_u64(ctx.platform.total_settled_lamports, bounty)?;
    let tasks_completed = add_u64(ctx.agent_profile.tasks_completed, 1)?;
    let reputation_score = add_i64(ctx.agent_profile.reputation_score, ctx.task.reputation_reward)?;
    let total_earned = add_u64(ctx.agent_profile.total_earned_lamports, agent_payout)?;

    ctx.task.status = TaskStatus::Approved;
    ctx.task.settled_at = now;
    ctx.platform.total_settled_lamports = total_settled;
    ctx.agent_profile.tasks_completed = tasks_completed;
    ctx.agent_profile.reputation_score = reputation_score;
    ctx.agent_profile.total_earned_lamports = total_earned;
    Ok(
        (
            TaskSettled {
                task: ctx.task_key,
                agent: ctx.task.agent,
                payout_lamports: agent_payout,
                fee_lamports: fee,
            },
            Payout { to_creator: 0, to_agent: agent_payout, to_treasury: fee },
        ),
    )
}

/// The creator approves the submission, which settles the escrow: the agent
/// gets the bounty less the platform fee, the treasury gets the fee, and the
/// task ends approved. The agent's profile counts the task, the reward and
/// the earnings; the platform counts the bounty as settled. The time of
/// settlement is read from the transaction clock. A refusal changes nothing.
pub fn approve_and_settle(ctx: &mut ApproveAndSettle) -> (r: Result<
    (TaskSettled, Payout),
    EscrowError,
>)
    ensures
        r == Err::<(TaskSettled, Payout), EscrowError>(EscrowError::ClockUnavailable)
            && *final(ctx) == *old(ctx)
            || exists|now: i64|
                (*final(ctx), r) == approve_and_settle_outcome(*old(ctx), now),
{
    let now = transaction_time()?;
    approve_and_settle_at(ctx, now)
}

/// Why `reject_submission` refuses, if it does. The conditions are tested in
/// this order and the first that holds decides.
pub open spec fn reject_submission_refusal(ctx: RejectSubmission) -> Option<EscrowError> {
    if !(ctx.task.status is Submitted) {
        Some(EscrowError::Rule(VerbittoError::TaskNotSubmitted))
    } else if ctx.task.creator != ctx.creator {
        Some(EscrowError::Rule(VerbittoError::NotTaskCreator))
    } else if ctx.task.rejection_count + 1 > u8::MAX {
        Some(overflow())
    } else {
        None
    }
}

/// The status that a task takes with its `rejections`-th rejection: disputed
/// from the third on, rejected before.
pub open spec fn status_after_rejections(rejections: int) -> TaskStatus {
    if rejections >= MAX_REJECTIONS {
        TaskStatus::Disputed
    } else {
        TaskStatus::Rejected
    }
}

/// The records after `reject_submission` has succeeded.
pub open spec fn reject_submission_records(ctx: RejectSubmission) -> RejectSubmission {
    RejectSubmission {
        task: Task {
            rejection_count: (ctx.task.rejection_count + 1) as u8,
            status: status_after_rejections(ctx.task.rejection_count + 1),
            ..ctx.task
        },
        ..ctx
    }
}

/// The event that `reject_submission` publishes.
pub open spec fn reject_submission_event(
    ctx: RejectSubmission,
    reason_hash: [u8; 32],
) -> SubmissionRejected {
    SubmissionRejected { task: ctx.task_key, agent: ctx.task.agent, reason_hash }
}

/// What `reject_submission` leaves of the records and what it returns: the
/// refusal and the records as they were, or the new records and the event.
pub open spec fn reject_submission_outcome(ctx: RejectSubmission, reason_hash: [u8; 32]) -> (
    RejectSubmission,
    Result<SubmissionRejected, EscrowError>,
) {
    match reject_submission_refusal(ctx) {
        Some(e) => (ctx, Err(e)),
        None => (reject_submission_records(ctx), Ok(reject_submission_event(ctx, reason_hash))),
    }
}

/// The creator rejects the submission. The agent may submit again or open a
/// dispute; with the third rejection the task goes to dispute by itself.
/// A refusal changes nothing.
pub fn reject_submission(ctx: &mut RejectSubmission, reason_hash: [u8; 32]) -> (r: Result<
    SubmissionRejected,
    EscrowError,
>)
    ensures
        (*final(ctx), r) == reject_submission_outcome(*old(ctx), reason_hash),
        r is Ok ==> {
            &&& old(ctx).task.wf() ==> final(ctx).task.wf()
            &&& lifecycle_edge(old(ctx).task.status, final(ctx).task.status)
            &&& custody_step(old(ctx).task, final(ctx).task, Payout::nothing())
        },
{
    if ctx.task.status != TaskStatus::Submitted {
        return Err(EscrowError::Rule(VerbittoError::TaskNotSubmitted));
    }
    if ctx.task.creator != ctx.creator {
        return Err(EscrowError::Rule(VerbittoError::NotTaskCreator));
    }
    let rejections: u8 = match ctx.task.rejection_count.checked_add(1) {
        Some(n) => n,
        None => {
            return Err(EscrowError::Rule(VerbittoError::ArithmeticOverflow));
        },
    };
    ctx.task.rejection_count = rejections;
    if rejections >= MAX_REJECTIONS {
        ctx.task.status = TaskStatus::Disputed;
    } else {
        ctx.task.status = TaskStatus::Rejected;
    }
    Ok(SubmissionRejected { task: ctx.task_key, agent: ctx.task.agent, reason_hash })
}

/// Why `cancel_task` refuses, if it does. The conditions are tested in this
/// order and the first that holds decides.
pub open spec fn cancel_task_refusal(ctx: CancelTask) -> Option<EscrowError> {
    if !(ctx.task.status is Open) {
        Some(EscrowError::Rule(VerbittoError::TaskNotOpen))
    } else if ctx.task.creator != ctx.creator {
        Some(EscrowError::Rule(VerbittoError::NotTaskCreator))
    } else {
        None
    }
}

/// The records after `cancel_task` has succeeded.
pub open spec fn cancel_task_records(ctx: CancelTask) -> CancelTask {
    CancelTask { task: Task { status: TaskStatus::Cancelled, ..ctx.task }, ..ctx }
}

/// The event that `cancel_task` publishes.
pub open spec fn cancel_task_event(ctx: CancelTask) -> TaskCancelled {
    TaskCancelled {
        task: ctx.task_key,
        creator: ctx.creator,
        refunded_lamports: ctx.task.bounty_lamports,
    }
}

/// What `cancel_task` leaves of the records and what it returns: the refusal
/// and the records as they were, or the new records with the event and the
/// refund of the whole bounty.
pub open spec fn cancel_task_outcome(ctx: CancelTask) -> (
    CancelTask,
    Result<(TaskCancelled, Payout), EscrowError>,
) {
    match cancel_task_refusal(ctx) {
        Some(e) => (ctx, Err(e)),
        None => (
            cancel_task_records(ctx),
            Ok((cancel_task_event(ctx), Payout::refund(ctx.task.bounty_lamports))),
        ),
    }
}

/// The creator cancels an open task and gets the whole bounty back.
/// A refusal changes nothing.
pub fn cancel_task(ctx: &mut CancelTask) -> (r: Result<(TaskCancelled, Payout), EscrowError>)
    ensures
        (*final(ctx), r) == cancel_task_outcome(*old(ctx)),
        r matches Ok(done) ==> {
            &&& old(ctx).task.wf() ==> final(ctx).task.wf()
            &&& lifecycle_edge(old(ctx).task.status, final(ctx).task.status)
            &&& custody_step(old(ctx).task, final(ctx).task, done.1)
        },
{
    if ctx.task.status != TaskStatus::Open {
        return Err(EscrowError::Rule(VerbittoError::TaskNotOpen));
    }
    if ctx.task.creator != ctx.creator {
        return Err(EscrowError::Rule(VerbittoError::NotTaskCreator));
    }
    let refund = ctx.task.bounty_lamports;
    ctx.task.status = TaskStatus::Cancelled;
    Ok(
        (
            TaskCancelled { task: ctx.task_key, creator: ctx.creator, refunded_lamports: refund },
            Payout { to_creator: refund, to_agent: 0, to_treasury: 0 },
        ),
    )
}

/// The time from which a task can expire: its deadline, and for a claimed
/// task the platform's grace period on top, so that an agent at work is not
/// cut off at once.
pub open spec fn effective_deadline(task: Task, platform: Platform) -> int {
    if task.status is Claimed {
        task.deadline + platform.claim_grace_period
    } else {
        task.deadline as int
    }
}

/// Why `expire_task` refuses, if it does. The conditions are tested in this
/// order and the first that holds decides.
pub open spec fn expire_task_refusal(ctx: ExpireTask, now: i64) -> Option<EscrowError> {
    if ctx.creator != ctx.task.creator {
        Some(EscrowError::Rule(VerbittoError::NotTaskCreator))
    } else if !(ctx.task.status is Open || ctx.task.status is Claimed) {
        Some(EscrowError::Rule(VerbittoError::TaskCannotExpire))
    } else if !fits_i64(effective_deadline(ctx.task, ctx.platform)) {
        Some(overflow())
    } else if now < effective_deadline(ctx.task, ctx.platform) {
        Some(EscrowError::Rule(VerbittoError::DeadlineNotReached))
    } else {
        None
    }
}

/// The records after `expire_task` has succeeded.
pub open spec fn expire_task_records(ctx: ExpireTask) -> ExpireTask {
    ExpireTask { task: Task { status: TaskStatus::Expired, ..ctx.task }, ..ctx }
}

/// The event that `expire_task` publishes.
pub open spec fn expire_task_event(ctx: ExpireTask) -> TaskExpired {
    TaskExpired {
        task: ctx.task_key,
        creator: ctx.task.creator,
        refunded_lamports: ctx.task.bounty_lamports,
    }
}

/// What `expire_task` leaves of the records and what it returns when the
/// clock shows `now`: the refusal and the records as they were, or the new
/// records with the event and the refund of the whole bounty.
pub open spec fn expire_task_outcome(ctx: ExpireTask, now: i64) -> (
    ExpireTask,
    Result<(TaskExpired, Payout), EscrowError>,
) {
    match expire_task_refusal(ctx, now) {
        Some(e) => (ctx, Err(e)),
        None => (
            expire_task_records(ctx),
            Ok((expire_task_event(ctx), Payout::refund(ctx.task.bounty_lamports))),
        ),
    }
}

/// Expires, at time `now`, an open or claimed task whose time has come and
/// returns the whole bounty to the creator; the agent gets nothing, whatever
/// the progress. Anyone may call.
pub fn expire_task_at(ctx: &mut ExpireTask, now: i64) -> (r: Result<
    (TaskExpired, Payout),
    EscrowError,
>)
    ensures
        (*final(ctx), r) == expire_task_outcome(*old(ctx), now),
        r matches Ok(done) ==> {
            &&& old(ctx).task.wf() ==> final(ctx).task.wf()
            &&& lifecycle_edge(old(ctx).task.status, final(ctx).task.status)
            &&& custody_step(old(ctx).task, final(ctx).task, done.1)
        },
{
    if ctx.creator != ctx.task.creator {
        return Err(EscrowError::Rule(VerbittoError::NotTaskCreator));
    }
    if ctx.task.status != TaskStatus::Open && ctx.task.status != TaskStatus::Claimed {
        return Err(EscrowError::Rule(VerbittoError::TaskCannotExpire));
    }
    let effective: i64 = if ctx.task.status == TaskStatus::Claimed {
        add_i64(ctx.task.deadline, ctx.platform.claim_grace_period)?
    } else {
        ctx.task.deadline
    };
    if now < effective {
        return Err(EscrowError::Rule(VerbittoError::DeadlineNotReached));
    }
    let refund = ctx.task.bounty_lamports;
    ctx.task.status = TaskStatus::Expired;
    Ok(
        (
            TaskExpired { task: ctx.task_key, creator: ctx.task.creator, refunded_lamports: refund },
            Payout { to_creator: refund, to_agent: 0, to_treasury: 0 },
        ),
    )
}

/// Expires an open or claimed task whose time has come and returns the whole
/// bounty to the creator; the agent gets nothing, whatever the progress.
/// Anyone may call. The time is read from the transaction clock. A refusal
/// changes nothing.
pub fn expire_task(ctx: &mut ExpireTask) -> (r: Result<(TaskExpired, Payout), EscrowError>)
    ensures
        r == Err::<(TaskExpired, Payout), EscrowError>(EscrowError::ClockUnavailable)
            && *final(ctx) == *old(ctx)
            || exists|now: i64|
                (*final(ctx), r) == expire_task_outcome(*old(ctx), now),
{
    let now = transaction_time()?;
    expire_task_at(ctx, now)
}

} // verus!
