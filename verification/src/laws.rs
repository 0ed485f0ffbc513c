//! What holds of the operations together: the lifecycle, the conservation of
//! the bounty, the bounds of fee and split, and the guards against doing a
//! thing twice.

use vstd::prelude::*;
use crate::contexts::{
    ApproveAndSettle, CancelTask, CastVote, ClaimTask, CreateTask, CreateTaskFromTemplate,
    CreateTemplate, DeactivateTemplate, ExpireTask, OpenDispute, PlatformAdmin, RegisterAgent,
    RejectSubmission, ResolveDispute, SubmitDeliverable,
};
use crate::errors::{EscrowError, VerbittoError};
use crate::escrow::{
    custody_step, disbursed, distribution_of, fee_of, lemma_fee_bounded, Payout,
};
use crate::events::VoteCast;
use crate::identity::Identity;
use crate::instructions::agent::{new_profile, register_agent_refusal};
use crate::instructions::dispute::{
    cast_vote_outcome, cast_vote_records, cast_vote_refusal, open_dispute_refusal,
    resolve_dispute_payout, resolve_dispute_records, resolve_dispute_refusal, verdict_of,
    voting_deadline,
};
use crate::instructions::platform::{pause_platform_refusal, resume_platform_refusal};
use crate::instructions::task::{
    approve_and_settle_payout, approve_and_settle_records, approve_and_settle_refusal,
    cancel_task_refusal, claim_task_refusal, create_task_from_template_records,
    create_task_records, create_task_refusal, effective_deadline, expire_task_records,
    expire_task_refusal, reject_submission_records, reject_submission_refusal,
    submit_deliverable_refusal,
};
use crate::instructions::template::{create_template_records, deactivate_template_refusal};
use crate::state::{
    lifecycle_edge, AgentProfile, ArbitratorVote, Platform, Ruling, Task, TaskCategory,
    TaskStatus, TaskTemplate, Verdict, MAX_REJECTIONS,
};

verus! {

/// A terminal status is final: no edge of the lifecycle leaves it.
pub proof fn law_terminal_status_is_final(from: TaskStatus, to: TaskStatus)
    requires
        from.spec_is_terminal(),
    ensures
        !lifecycle_edge(from, to),
{
}

/// No operation is admitted on a task that has ended: each of the operations
/// on an existing task refuses whenever the task's status is terminal.
pub proof fn law_ended_task_admits_no_operation(
    claim: ClaimTask,
    submit: SubmitDeliverable,
    approve: ApproveAndSettle,
    reject: RejectSubmission,
    cancel: CancelTask,
    expire: ExpireTask,
    open: OpenDispute,
    resolve: ResolveDispute,
    now: i64,
)
    requires
        claim.task.status.spec_is_terminal(),
        submit.task.status.spec_is_terminal(),
        approve.task.status.spec_is_terminal(),
        reject.task.status.spec_is_terminal(),
        cancel.task.status.spec_is_terminal(),
        expire.task.status.spec_is_terminal(),
        open.task.status.spec_is_terminal(),
        resolve.task.status.spec_is_terminal(),
    ensures
        claim_task_refusal(claim, now) is Some,
        submit_deliverable_refusal(submit) is Some,
        approve_and_settle_refusal(approve) is Some,
        reject_submission_refusal(reject) is Some,
        cancel_task_refusal(cancel) is Some,
        expire_task_refusal(expire, now) is Some,
        open_dispute_refusal(open) is Some,
        resolve_dispute_refusal(resolve, now) is Some,
{
}

/// Each operation is admitted only in the statuses it is defined for: a claim
/// and a cancellation on an open task, a submission on a claimed or rejected
/// one, approval and rejection on a submitted one, expiry on an open or
/// claimed one, the opening of a dispute on a submitted or rejected one, and
/// the resolution on a disputed one.
pub proof fn law_operations_start_from_their_statuses(
    claim: ClaimTask,
    submit: SubmitDeliverable,
    approve: ApproveAndSettle,
    reject: RejectSubmission,
    cancel: CancelTask,
    expire: ExpireTask,
    open: OpenDispute,
    resolve: ResolveDispute,
    now: i64,
)
    ensures
        claim_task_refusal(claim, now) is None ==> claim.task.status is Open,
        submit_deliverable_refusal(submit) is None ==> submit.task.status is Claimed
            || submit.task.status is Rejected,
        approve_and_settle_refusal(approve) is None ==> approve.task.status is Submitted,
        reject_submission_refusal(reject) is None ==> reject.task.status is Submitted,
        cancel_task_refusal(cancel) is None ==> cancel.task.status is Open,
        expire_task_refusal(expire, now) is None ==> expire.task.status is Open
            || expire.task.status is Claimed,
        open_dispute_refusal(open) is None ==> open.task.status is Submitted
            || open.task.status is Rejected,
        resolve_dispute_refusal(resolve, now) is None ==> resolve.task.status is Disputed,
{
}

/// A rejection leads to dispute exactly when it is the third or a later one;
/// before that the task is rejected and can be submitted again.
pub proof fn law_third_rejection_escalates(ctx: RejectSubmission)
    requires
        reject_submission_refusal(ctx) is None,
    ensures
        reject_submission_records(ctx).task.rejection_count == ctx.task.rejection_count + 1,
        reject_submission_records(ctx).task.status is Disputed <==> ctx.task.rejection_count + 1
            >= MAX_REJECTIONS,
        reject_submission_records(ctx).task.status is Rejected <==> ctx.task.rejection_count + 1
            < MAX_REJECTIONS,
{
}

/// Voting leaves the task untouched: its status, its bounty and every other
/// field stay as they were.
pub proof fn law_vote_leaves_task(ctx: CastVote, ruling: Ruling, now: i64)
    ensures
        cast_vote_records(ctx, ruling, now).task == ctx.task,
        cast_vote_records(ctx, ruling, now).platform == ctx.platform,
        cast_vote_records(ctx, ruling, now).voter_profile == ctx.voter_profile,
{
}

/// The bounty is conserved at every point of a task's life. Take any history
/// of a task from its creation on, each state following the one before by one
/// operation with its payout: after any number of them, what the task holds
/// and all that has been paid out of it add up to the bounty deposited.
pub proof fn law_history_conserves_bounty(tasks: Seq<Task>, payouts: Seq<Payout>, point: int)
    requires
        tasks.len() == payouts.len() + 1,
        tasks[0].status is Open,
        forall|i: int|
            #![trigger payouts[i]]
            0 <= i < payouts.len() ==> custody_step(tasks[i], tasks[i + 1], payouts[i]),
        0 <= point <= payouts.len(),
    ensures
        tasks[point].bounty_lamports == tasks[0].bounty_lamports,
        tasks[point].spec_held_lamports() + disbursed(payouts.subrange(0, point))
            == tasks[0].bounty_lamports,
    decreases point,
{
    if point == 0 {
        assert(payouts.subrange(0, 0).len() == 0);
    } else {
        law_history_conserves_bounty(tasks, payouts, point - 1);
        let upto = payouts.subrange(0, point);
        assert(upto.drop_last() =~= payouts.subrange(0, point - 1));
        assert(upto.last() == payouts[point - 1]);
        assert(custody_step(tasks[point - 1], tasks[point - 1 + 1], payouts[point - 1]));
    }
}

/// Once a task has ended, all of its bounty has been paid out: nothing stays
/// behind in a record that no operation can reach any more.
pub proof fn law_ended_task_holds_nothing(tasks: Seq<Task>, payouts: Seq<Payout>)
    requires
        tasks.len() == payouts.len() + 1,
        tasks[0].status is Open,
        forall|i: int|
            #![trigger payouts[i]]
            0 <= i < payouts.len() ==> custody_step(tasks[i], tasks[i + 1], payouts[i]),
        tasks.last().status.spec_is_terminal(),
    ensures
        disbursed(payouts) == tasks[0].bounty_lamports,
{
    law_history_conserves_bounty(tasks, payouts, payouts.len() as int);
    assert(payouts.subrange(0, payouts.len() as int) =~= payouts);
}

/// On a platform whose settings are within their ranges the fee is the
/// bounty's share at the platform's rate, rounded down, and never more than
/// the bounty.
pub proof fn law_fee_within_bounty(platform: Platform, bounty: u64)
    requires
        platform.wf(),
    ensures
        0 <= fee_of(bounty as int, platform.fee_bps as int) <= bounty,
        fee_of(bounty as int, platform.fee_bps as int) == (bounty * platform.fee_bps) / 10000,
{
    lemma_fee_bounded(bounty as int, platform.fee_bps as int);
}

/// Approval pays the whole bounty out: the fee, exactly the bounty's share at
/// the platform's rate and at most the bounty, to the treasury, the rest to
/// the agent, nothing to the creator. The task then holds nothing.
pub proof fn law_approval_conserves_bounty(ctx: ApproveAndSettle, now: i64)
    requires
        approve_and_settle_refusal(ctx) is None,
    ensures
        approve_and_settle_payout(ctx).to_treasury == fee_of(
            ctx.task.bounty_lamports as int,
            ctx.platform.fee_bps as int,
        ),
        0 <= approve_and_settle_payout(ctx).to_treasury <= ctx.task.bounty_lamports,
        approve_and_settle_payout(ctx).total() == ctx.task.bounty_lamports,
        ctx.task.spec_held_lamports() == ctx.task.bounty_lamports,
        approve_and_settle_records(ctx, now).task.spec_held_lamports() == 0,
        approve_and_settle_records(ctx, now).task.bounty_lamports == ctx.task.bounty_lamports,
{
    let bounty = ctx.task.bounty_lamports as int;
    let rate = ctx.platform.fee_bps as int;
    assert(0 <= bounty * rate) by (nonlinear_arith)
        requires
            0 <= bounty,
            0 <= rate,
    ;
    assert(0 <= fee_of(bounty, rate) <= bounty);
}

/// Resolving a dispute pays the whole bounty out, however the votes fell. What
/// goes to creator, agent and treasury adds up to the bounty, the fee is at
/// most the bounty and is charged exactly where the creator does not win, and
/// the task then holds nothing.
pub proof fn law_resolution_conserves_bounty(ctx: ResolveDispute, now: i64)
    requires
        resolve_dispute_refusal(ctx, now) is None,
    ensures
        resolve_dispute_payout(ctx).total() == ctx.task.bounty_lamports,
        resolve_dispute_payout(ctx).to_treasury == if verdict_of(ctx.dispute) is CreatorWins {
            0
        } else {
            fee_of(ctx.task.bounty_lamports as int, ctx.platform.fee_bps as int)
        },
        0 <= resolve_dispute_payout(ctx).to_treasury <= ctx.task.bounty_lamports,
        ctx.task.spec_held_lamports() == ctx.task.bounty_lamports,
        resolve_dispute_records(ctx, now).task.spec_held_lamports() == 0,
        resolve_dispute_records(ctx, now).task.bounty_lamports == ctx.task.bounty_lamports,
{
    let bounty = ctx.task.bounty_lamports as int;
    let rate = ctx.platform.fee_bps as int;
    assert(0 <= bounty * rate) by (nonlinear_arith)
        requires
            0 <= bounty,
            0 <= rate,
    ;
}

/// Value leaves a task only towards its parties and the platform: whenever
/// an operation pays out, the wallets it was handed are those of the task's
/// creator, of its assigned agent and of the platform's treasury, as far as
/// the operation pays them.
pub proof fn law_payouts_reach_the_parties(
    approve: ApproveAndSettle,
    cancel: CancelTask,
    expire: ExpireTask,
    resolve: ResolveDispute,
    now: i64,
)
    ensures
        approve_and_settle_refusal(approve) is None ==> approve.agent == approve.task.agent
            && approve.treasury == approve.platform.treasury && approve.creator
            == approve.task.creator,
        cancel_task_refusal(cancel) is None ==> cancel.creator == cancel.task.creator,
        expire_task_refusal(expire, now) is None ==> expire.creator == expire.task.creator,
        resolve_dispute_refusal(resolve, now) is None ==> resolve.creator == resolve.task.creator
            && resolve.agent == resolve.task.agent && resolve.treasury
            == resolve.platform.treasury,
{
}

/// The bounty of a task that nobody completes does not stay behind: once the
/// deadline of an open task has come, or the deadline and the grace period of
/// a claimed one, anyone can expire it, paused platform or not, and the
/// creator has the bounty back.
pub proof fn law_overdue_task_can_expire(ctx: ExpireTask, now: i64)
    requires
        ctx.platform.wf(),
        ctx.task.status is Open || ctx.task.status is Claimed,
        ctx.creator == ctx.task.creator,
        now >= effective_deadline(ctx.task, ctx.platform),
    ensures
        expire_task_refusal(ctx, now) is None,
        expire_task_records(ctx).task.status is Expired,
{
}

/// The verdict decides who is paid: the creator's win returns the whole
/// bounty and charges no fee; the agent's win pays the bounty less the fee to
/// the agent; a split halves what is left after the fee.
pub proof fn law_verdict_decides_payout(bounty: u64, fee: u64)
    requires
        fee <= bounty,
    ensures
        distribution_of(Verdict::CreatorWins, bounty, fee) == (Payout {
            to_creator: bounty,
            to_agent: 0,
            to_treasury: 0,
        }),
        distribution_of(Verdict::AgentWins, bounty, fee) == (Payout {
            to_creator: 0,
            to_agent: (bounty - fee) as u64,
            to_treasury: fee,
        }),
        distribution_of(Verdict::Split, bounty, fee).to_agent == (bounty - fee) / 2,
        distribution_of(Verdict::Split, bounty, fee).to_creator == (bounty - fee) - (bounty - fee)
            / 2,
        distribution_of(Verdict::Split, bounty, fee).to_treasury == fee,
{
}

/// A split is fair: the two shares and the fee add up to the bounty, and the
/// creator's share is the agent's or one more, never less.
pub proof fn law_split_is_fair(bounty: u64, fee: u64)
    requires
        fee <= bounty,
    ensures
        ({
            let p = distribution_of(Verdict::Split, bounty, fee);
            &&& p.to_creator + p.to_agent + p.to_treasury == bounty
            &&& p.to_creator - p.to_agent == 0 || p.to_creator - p.to_agent == 1
        }),
{
}

/// Only an update by the authority changes the platform's settings: the
/// operations that count on the platform leave authority, treasury and every
/// setting as they were, and with them the ranges the settings are in.
pub proof fn law_settings_change_only_by_update(
    create: CreateTask,
    title: String,
    description_hash: [u8; 32],
    bounty_lamports: u64,
    task_index: u64,
    deadline: i64,
    reputation_reward: i64,
    from_template: CreateTaskFromTemplate,
    template: CreateTemplate,
    default_bounty_lamports: u64,
    category: TaskCategory,
    approve: ApproveAndSettle,
    resolve: ResolveDispute,
    now: i64,
)
    ensures
        create.platform.same_settings(
            create_task_records(
                create,
                title,
                description_hash,
                bounty_lamports,
                task_index,
                deadline,
                reputation_reward,
                now,
            ).platform,
        ),
        from_template.platform.same_settings(
            create_task_from_template_records(
                from_template,
                bounty_lamports,
                deadline,
                reputation_reward,
                task_index,
                now,
            ).platform,
        ),
        template.platform.same_settings(
            create_template_records(
                template,
                title,
                description_hash,
                default_bounty_lamports,
                category,
            ).platform,
        ),
        approve.platform.same_settings(approve_and_settle_records(approve, now).platform),
        resolve.platform.same_settings(resolve_dispute_records(resolve, now).platform),
        forall|before: Platform, after: Platform|
            before.same_settings(after) && before.wf() ==> after.wf(),
{
}

/// Pausing a paused platform and resuming a running one are refused, whoever
/// calls.
pub proof fn law_pause_guards(ctx: PlatformAdmin)
    ensures
        ctx.platform.is_paused ==> pause_platform_refusal(ctx) is Some,
        !ctx.platform.is_paused ==> resume_platform_refusal(ctx) is Some,
        ctx.platform.authority == ctx.authority && ctx.platform.is_paused
            ==> pause_platform_refusal(ctx) == Some(
            EscrowError::Rule(VerbittoError::PlatformAlreadyPaused),
        ),
        ctx.platform.authority == ctx.authority && !ctx.platform.is_paused
            ==> resume_platform_refusal(ctx) == Some(
            EscrowError::Rule(VerbittoError::PlatformNotPaused),
        ),
{
}

/// After a pause a second pause is refused, and after a resumption a second
/// resumption.
pub proof fn law_pause_is_not_repeated(ctx: PlatformAdmin)
    ensures
        pause_platform_refusal(ctx) is None ==> pause_platform_refusal(
            PlatformAdmin { platform: Platform { is_paused: true, ..ctx.platform }, ..ctx },
        ) == Some(EscrowError::Rule(VerbittoError::PlatformAlreadyPaused)),
        resume_platform_refusal(ctx) is None ==> resume_platform_refusal(
            PlatformAdmin { platform: Platform { is_paused: false, ..ctx.platform }, ..ctx },
        ) == Some(EscrowError::Rule(VerbittoError::PlatformNotPaused)),
{
}

/// Deactivating an inactive template is refused, whoever calls; so a
/// deactivation cannot be repeated.
pub proof fn law_deactivation_is_not_repeated(ctx: DeactivateTemplate)
    ensures
        !ctx.template.is_active ==> deactivate_template_refusal(ctx) is Some,
        deactivate_template_refusal(ctx) is None ==> deactivate_template_refusal(
            DeactivateTemplate {
                template: TaskTemplate { is_active: false, ..ctx.template },
                ..ctx
            },
        ) == Some(EscrowError::Rule(VerbittoError::TemplateInactive)),
{
}

/// Each voter has one vote on a dispute. Once a vote is cast it stands in the
/// voter's place on that dispute, and a further vote from there is refused
/// whatever its ruling and time, so that the tallies stay as the first vote
/// left them.
pub proof fn law_second_vote_is_refused(
    ctx: CastVote,
    first: Ruling,
    first_time: i64,
    second: Ruling,
    second_time: i64,
)
    requires
        cast_vote_refusal(ctx, first, first_time) is None,
    ensures
        cast_vote_records(ctx, first, first_time).vote is Some,
        cast_vote_records(ctx, first, first_time).vote->0.arbitrator == ctx.voter,
        cast_vote_records(ctx, first, first_time).vote->0.dispute == ctx.dispute_key,
        cast_vote_refusal(cast_vote_records(ctx, first, first_time), second, second_time) == Some(
            EscrowError::RecordExists,
        ),
        cast_vote_outcome(cast_vote_records(ctx, first, first_time), second, second_time).0
            == cast_vote_records(ctx, first, first_time),
{
}

/// One vote per voter, whatever the record store: let the store find a
/// vote's place by any address made of the dispute and the voter alone, and
/// let it hold the first vote where that vote was cast. Then a second vote
/// that the same voter casts on the same dispute meets the first in its place
/// and is refused, whatever its ruling and time, and nothing changes.
pub proof fn law_one_vote_per_voter(
    first: CastVote,
    first_ruling: Ruling,
    first_time: i64,
    second: CastVote,
    second_ruling: Ruling,
    second_time: i64,
    address: spec_fn(Identity, Identity) -> Identity,
    store: spec_fn(Identity) -> Option<ArbitratorVote>,
)
    requires
        cast_vote_refusal(first, first_ruling, first_time) is None,
        store(address(first.dispute_key, first.voter)) == cast_vote_records(
            first,
            first_ruling,
            first_time,
        ).vote,
        second.vote == store(address(second.dispute_key, second.voter)),
        second.dispute_key == first.dispute_key,
        second.voter == first.voter,
    ensures
        cast_vote_refusal(second, second_ruling, second_time) == Some(EscrowError::RecordExists),
        cast_vote_outcome(second, second_ruling, second_time) == (
            second,
            Err::<VoteCast, EscrowError>(EscrowError::RecordExists),
        ),
{
}

/// A vote is refused wherever the voter's place on the dispute holds a vote,
/// whatever else holds: the duplicate is what fails.
pub proof fn law_occupied_vote_place_refuses(ctx: CastVote, ruling: Ruling, now: i64)
    requires
        ctx.vote is Some,
    ensures
        cast_vote_refusal(ctx, ruling, now) == Some(EscrowError::RecordExists),
{
}

/// One profile per agent, whatever the record store: let the store find a
/// profile's place by any address made of the agent alone, and let it hold
/// the profile where registration put it. Then a second registration of the
/// same agent meets the first profile in its place and is refused.
pub proof fn law_one_profile_per_agent(
    first: RegisterAgent,
    skill_tags: u8,
    now: i64,
    second: RegisterAgent,
    address: spec_fn(Identity) -> Identity,
    store: spec_fn(Identity) -> Option<AgentProfile>,
)
    requires
        register_agent_refusal(first) is None,
        store(address(first.authority)) == Some(new_profile(first.authority, skill_tags, now)),
        second.agent_profile == store(address(second.authority)),
        second.authority == first.authority,
    ensures
        register_agent_refusal(second) == Some(EscrowError::RecordExists),
{
}

/// A creator's task indices run on without gap or reuse: once a task has
/// been created, the creator's next task is admitted only under the index
/// that follows, whatever its other terms.
pub proof fn law_task_indices_run_on(
    first: CreateTask,
    first_title: String,
    description_hash: [u8; 32],
    bounty_lamports: u64,
    task_index: u64,
    deadline: i64,
    reputation_reward: i64,
    now: i64,
    next: CreateTask,
    next_title: Seq<char>,
    next_bounty: u64,
    next_index: u64,
    next_deadline: i64,
    next_reward: i64,
    later: i64,
)
    requires
        create_task_refusal(
            first,
            first_title@,
            bounty_lamports,
            task_index,
            deadline,
            reputation_reward,
            now,
        ) is None,
        next.creator_counter == create_task_records(
            first,
            first_title,
            description_hash,
            bounty_lamports,
            task_index,
            deadline,
            reputation_reward,
            now,
        ).creator_counter,
        create_task_refusal(
            next,
            next_title,
            next_bounty,
            next_index,
            next_deadline,
            next_reward,
            later,
        ) is None,
    ensures
        next_index == task_index + 1,
        next.creator == first.creator,
{
}

/// A dispute whose voting period has passed without a quorum can neither take
/// votes nor be resolved.
pub proof fn law_dispute_without_quorum_stays_open(
    vote: CastVote,
    resolve: ResolveDispute,
    ruling: Ruling,
    now: i64,
)
    requires
        vote.dispute == resolve.dispute,
        vote.platform == resolve.platform,
        now >= voting_deadline(resolve.dispute, resolve.platform),
        resolve.dispute.total_votes() < resolve.platform.dispute_min_votes,
    ensures
        cast_vote_refusal(vote, ruling, now) is Some,
        resolve_dispute_refusal(resolve, now) is Some,
{
}

} // verus!
