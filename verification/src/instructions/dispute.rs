//! Dispute arbitration: opening a dispute, voting, and resolving by majority.

use vstd::prelude::*;
use crate::clock::transaction_time;
use crate::contexts::{CastVote, OpenDispute, ResolveDispute};
use crate::errors::{EscrowError, VerbittoError};
use crate::escrow::{
    add_i64, add_u64, custody_step, distribute, distribution_of, fee_of, fits_i64, fits_u64,
    majority, majority_of, overflow, platform_fee, Payout,
};
use crate::events::{DisputeOpened, DisputeResolved, VoteCast};
use crate::identity::Identity;
use crate::state::{
    lifecycle_edge, AgentProfile, ArbitratorVote, Dispute, DisputeReason, DisputeStatus, Platform,
    Ruling, Task, TaskStatus, Verdict,
};

verus! {

/// Why `open_dispute` refuses, if it does. The conditions are tested in this
/// order and the first that holds decides.
pub open spec fn open_dispute_refusal(ctx: OpenDispute) -> Option<EscrowError> {
    if ctx.dispute is Some {
        Some(EscrowError::RecordExists)
    } else if !(ctx.task.status is Submitted || ctx.task.status is Rejected) {
        Some(EscrowError::Rule(VerbittoError::TaskNotDisputable))
    } else if ctx.initiator != ctx.task.creator && ctx.initiator != ctx.task.agent {
        Some(EscrowError::Rule(VerbittoError::NotTaskParty))
    } else {
        None
    }
}

/// A dispute as `open_dispute` leaves it: open, without votes or ruling.
pub open spec fn new_dispute(
    task_key: Identity,
    initiator: Identity,
    reason: DisputeReason,
    evidence_hash: [u8; 32],
    now: i64,
) -> Dispute {
    Dispute {
        task: task_key,
        initiator,
        reason,
        evidence_hash,
        status: DisputeStatus::Open,
        votes_for_creator: 0,
        votes_for_agent: 0,
        votes_for_split: 0,
        opened_at: now,
        resolved_at: 0,
        ruling: Ruling::Pending,
    }
}

/// The records after `open_dispute` has succeeded at time `now`.
pub open spec fn open_dispute_records(
    ctx: OpenDispute,
    reason: DisputeReason,
    evidence_hash: [u8; 32],
    now: i64,
) -> OpenDispute {
    OpenDispute {
        task: Task { status: TaskStatus::Disputed, ..ctx.task },
        dispute: Some(new_dispute(ctx.task_key, ctx.initiator, reason, evidence_hash, now)),
        ..ctx
    }
}

/// The event that `open_dispute` publishes.
pub open spec fn open_dispute_event(ctx: OpenDispute, reason: DisputeReason) -> DisputeOpened {
    DisputeOpened {
        dispute: ctx.dispute_key,
        task: ctx.task_key,
        initiator: ctx.initiator,
        reason,
    }
}

/// What `open_dispute` leaves of the records and what it returns when the
/// clock shows `now`: the refusal and the records as they were, or the new
/// records and the event.
pub open spec fn open_dispute_outcome(
    ctx: OpenDispute,
    reason: DisputeReason,
    evidence_hash: [u8; 32],
    now: i64,
) -> (OpenDispute, Result<DisputeOpened, EscrowError>) {
    match open_dispute_refusal(ctx) {
        Some(e) => (ctx, Err(e)),
        None => (
            open_dispute_records(ctx, reason, evidence_hash, now),
            Ok(open_dispute_event(ctx, reason)),
        ),
    }
}

/// The creator or the agent of a submitted or rejected task opens a dispute
/// over it at time `now`. The task becomes disputed and voting starts.
pub fn open_dispute_at(
    ctx: &mut OpenDispute,
    reason: DisputeReason,
    evidence_hash: [u8; 32],
    now: i64,
) -> (r: Result<DisputeOpened, EscrowError>)
    ensures
        (*final(ctx), r) == open_dispute_outcome(*old(ctx), reason, evidence_hash, now),
        r is Ok ==> {
            &&& old(ctx).task.wf() ==> final(ctx).task.wf()
            &&& final(ctx).dispute->0.wf()
            &&& lifecycle_edge(old(ctx).task.status, final(ctx).task.status)
            &&& custody_step(old(ctx).task, final(ctx).task, Payout::nothing())
        },
{
    if ctx.dispute.is_some() {
        return Err(EscrowError::RecordExists);
    }
    if ctx.task.status != TaskStatus::Submitted && ctx.task.status != TaskStatus::Rejected {
        return Err(EscrowError::Rule(VerbittoError::TaskNotDisputable));
    }
    if ctx.initiator != ctx.task.creator && ctx.initiator != ctx.task.agent {
        return Err(EscrowError::Rule(VerbittoError::NotTaskParty));
    }
    ctx.task.status = TaskStatus::Disputed;
    ctx.dispute = Some(
        Dispute {
            task: ctx.task_key,
            initiator: ctx.initiator,
            reason,
            evidence_hash,
            status: DisputeStatus::Open,
            votes_for_creator: 0,
            votes_for_agent: 0,
            votes_for_split: 0,
            opened_at: now,
            resolved_at: 0,
            ruling: Ruling::Pending,
        },
    );
    Ok(
        DisputeOpened {
            dispute: ctx.dispute_key,
            task: ctx.task_key,
            initiator: ctx.initiator,
            reason,
        },
    )
}

/// The creator or the agent of a submitted or rejected task opens a dispute
/// over it. The task becomes disputed and voting starts at the time read from
/// the transaction clock. A refusal changes nothing.
pub fn open_dispute(ctx: &mut OpenDispute, reason: DisputeReason, evidence_hash: [u8; 32]) -> (r:
    Result<DisputeOpened, EscrowError>)
    ensures
        r == Err::<DisputeOpened, EscrowError>(EscrowError::ClockUnavailable)
            && *final(ctx) == *old(ctx)
            || exists|now: i64|
                (*final(ctx), r) == open_dispute_outcome(*old(ctx), reason, evidence_hash, now),
{
    let now = transaction_time()?;
    open_dispute_at(ctx, reason, evidence_hash, now)
}

/// The tally that a vote for `verdict` adds to.
pub open spec fn tally_of(dispute: Dispute, verdict: Verdict) -> u16 {
    match verdict {
        Verdict::CreatorWins => dispute.votes_for_creator,
        Verdict::AgentWins => dispute.votes_for_agent,
        Verdict::Split => dispute.votes_for_split,
    }
}

/// The dispute with one more vote for `verdict`.
pub open spec fn with_vote(dispute: Dispute, verdict: Verdict) -> Dispute {
    match verdict {
        Verdict::CreatorWins => Dispute {
            votes_for_creator: (dispute.votes_for_creator + 1) as u16,
            ..dispute
        },
        Verdict::AgentWins => Dispute {
            votes_for_agent: (dispute.votes_for_agent + 1) as u16,
            ..dispute
        },
        Verdict::Split => Dispute {
            votes_for_split: (dispute.votes_for_split + 1) as u16,
            ..dispute
        },
    }
}

/// Why `cast_vote` refuses, if it does. The conditions are tested in this
/// order and the first that holds decides.
pub open spec fn cast_vote_refusal(ctx: CastVote, ruling: Ruling, now: i64) -> Option<EscrowError> {
    if ctx.vote is Some {
        Some(EscrowError::RecordExists)
    } else if ctx.dispute.task != ctx.task_key {
        Some(EscrowError::Rule(VerbittoError::DisputeTaskMismatch))
    } else if ctx.voter_profile.authority != ctx.voter {
        Some(EscrowError::RecordMismatch)
    } else if !(ctx.dispute.status is Open) {
        Some(EscrowError::Rule(VerbittoError::DisputeNotOpen))
    } else if ruling is Pending {
        Some(EscrowError::Rule(VerbittoError::InvalidRuling))
    } else if !fits_i64(voting_deadline(ctx.dispute, ctx.platform)) {
        Some(overflow())
    } else if now >= voting_deadline(ctx.dispute, ctx.platform) {
        Some(EscrowError::Rule(VerbittoError::VotingPeriodEnded))
    } else if ctx.voter == ctx.task.creator || ctx.voter == ctx.task.agent {
        Some(EscrowError::Rule(VerbittoError::PartyCannotVote))
    } else if ctx.voter_profile.reputation_score < ctx.platform.min_voter_reputation {
        Some(EscrowError::Rule(VerbittoError::InsufficientReputation))
    } else if tally_of(ctx.dispute, ruling.spec_decided()->0) + 1 > u16::MAX {
        Some(overflow())
    } else {
        None
    }
}

/// The records after `cast_vote` has succeeded at time `now`.
pub open spec fn cast_vote_records(ctx: CastVote, ruling: Ruling, now: i64) -> CastVote {
    CastVote {
        dispute: with_vote(ctx.dispute, ruling.spec_decided()->0),
        vote: Some(
            ArbitratorVote {
                dispute: ctx.dispute_key,
                arbitrator: ctx.voter,
                ruling,
                voted_at: now,
            },
        ),
        ..ctx
    }
}

/// Adds one vote for `verdict` to the tallies of `dispute`.
fn add_vote(dispute: &Dispute, verdict: Verdict) -> (after: Result<Dispute, EscrowError>)
    ensures
        after is Ok <==> tally_of(*dispute, verdict) + 1 <= u16::MAX,
        after matches Ok(d) ==> d == with_vote(*dispute, verdict),
        after matches Err(e) ==> e == overflow(),
{
    let tally: u16 = match verdict {
        Verdict::CreatorWins => dispute.votes_for_creator,
        Verdict::AgentWins => dispute.votes_for_agent,
        Verdict::Split => dispute.votes_for_split,
    };
    let raised: u16 = match tally.checked_add(1) {
        Some(n) => n,
        None => {
            return Err(EscrowError::Rule(VerbittoError::ArithmeticOverflow));
        },
    };
    let mut after = *dispute;
    match verdict {
        Verdict::CreatorWins => {
            after.votes_for_creator = raised;
        },
        Verdict::AgentWins => {
            after.votes_for_agent = raised;
        },
        Verdict::Split => {
            after.votes_for_split = raised;
        },
    }
    Ok(after)
}

/// The event that `cast_vote` publishes.
pub open spec fn cast_vote_event(ctx: CastVote, ruling: Ruling) -> VoteCast {
    VoteCast { dispute: ctx.dispute_key, voter: ctx.voter, ruling }
}

/// What `cast_vote` leaves of the records and what it returns when the clock
/// shows `now`: the refusal and the records as they were, or the new records
/// and the event.
pub open spec fn cast_vote_outcome(ctx: CastVote, ruling: Ruling, now: i64) -> (
    CastVote,
    Result<VoteCast, EscrowError>,
) {
    match cast_vote_refusal(ctx, ruling, now) {
        Some(e) => (ctx, Err(e)),
        None => (cast_vote_records(ctx, ruling, now), Ok(cast_vote_event(ctx, ruling))),
    }
}

/// A registered agent who is no party to the task casts a decided ruling on
/// an open dispute at time `now`, before its voting period ends. Each voter
/// has one vote per dispute: the vote is refused where the voter's vote on
/// this dispute already exists.
pub fn cast_vote_at(ctx: &mut CastVote, ruling: Ruling, now: i64) -> (r: Result<
    VoteCast,
    EscrowError,
>)
    ensures
        (*final(ctx), r) == cast_vote_outcome(*old(ctx), ruling, now),
        r is Ok ==> {
            &&& old(ctx).dispute.wf() ==> final(ctx).dispute.wf()
            &&& final(ctx).dispute.total_votes() == old(ctx).dispute.total_votes() + 1
            &&& final(ctx).task == old(ctx).task
        },
        old(ctx).vote is Some ==> r == Err::<VoteCast, EscrowError>(EscrowError::RecordExists),
{
    if ctx.vote.is_some() {
        return Err(EscrowError::RecordExists);
    }
    if ctx.dispute.task != ctx.task_key {
        return Err(EscrowError::Rule(VerbittoError::DisputeTaskMismatch));
    }
    if ctx.voter_profile.authority != ctx.voter {
        return Err(EscrowError::RecordMismatch);
    }
    if ctx.dispute.status != DisputeStatus::Open {
        return Err(EscrowError::Rule(VerbittoError::DisputeNotOpen));
    }
    let verdict = match ruling.decided() {
        Some(v) => v,
        None => {
            return Err(EscrowError::Rule(VerbittoError::InvalidRuling));
        },
    };
    let deadline = add_i64(ctx.dispute.opened_at, ctx.platform.dispute_voting_period)?;
    if now >= deadline {
        return Err(EscrowError::Rule(VerbittoError::VotingPeriodEnded));
    }
    if ctx.voter == ctx.task.creator || ctx.voter == ctx.task.agent {
        return Err(EscrowError::Rule(VerbittoError::PartyCannotVote));
    }
    if ctx.voter_profile.reputation_score < ctx.platform.min_voter_reputation {
        return Err(EscrowError::Rule(VerbittoError::InsufficientReputation));
    }
    let dispute = add_vote(&ctx.dispute, verdict)?;
    ctx.dispute = dispute;
    ctx.vote = Some(
        ArbitratorVote { dispute: ctx.dispute_key, arbitrator: ctx.voter, ruling, voted_at: now },
    );
    Ok(VoteCast { dispute: ctx.dispute_key, voter: ctx.voter, ruling })
}

/// A registered agent who is no party to the task casts a decided ruling on
/// an open dispute before its voting period ends. Each voter has one vote per
/// dispute: the vote is refused where the voter's vote on this dispute
/// already exists. The time is read from the transaction clock. A refusal
/// changes nothing.
pub fn cast_vote(ctx: &mut CastVote, ruling: Ruling) -> (r: Result<VoteCast, EscrowError>)
    ensures
        r == Err::<VoteCast, EscrowError>(EscrowError::ClockUnavailable)
            && *final(ctx) == *old(ctx)
            || exists|now: i64|
                (*final(ctx), r) == cast_vote_outcome(*old(ctx), ruling, now),
{
    let now = transaction_time()?;
    cast_vote_at(ctx, ruling, now)
}

/// The time at which a dispute's voting period ends.
pub open spec fn voting_deadline(dispute: Dispute, platform: Platform) -> int {
    dispute.opened_at + platform.dispute_voting_period
}

/// Half of `x`, rounded down.
pub fn floor_half(x: i64) -> (half: i64)
    ensures
        half == x / 2,
{
    if x >= 0 {
        x / 2
    } else {
        let above: i64 = x + 1;
        let magnitude: i64 = -above;
        -(magnitude / 2) - 1
    }
}

/// `x`, or the bound of `i64` that it lies beyond.
pub open spec fn clamp_i64(x: int) -> i64 {
    if x < i64::MIN {
        i64::MIN
    } else if x > i64::MAX {
        i64::MAX
    } else {
        x as i64
    }
}

/// `a - b`, stopped at the bounds of `i64`.
pub fn clamped_sub(a: i64, b: i64) -> (difference: i64)
    ensures
        difference == clamp_i64(a - b),
{
    match a.checked_sub(b) {
        Some(d) => d,
        None => if b > 0 {
            i64::MIN
        } else {
            i64::MAX
        },
    }
}

/// The task after its dispute ended with `verdict` at time `now`: cancelled
/// where the creator won, approved otherwise.
pub open spec fn task_after_dispute(task: Task, verdict: Verdict, now: i64) -> Task {
    Task {
        status: if verdict is CreatorWins {
            TaskStatus::Cancelled
        } else {
            TaskStatus::Approved
        },
        settled_at: now,
        ..task
    }
}

/// The platform after a dispute over `bounty` ended with `verdict`: what went
/// to the agent, wholly or in part, counts as settled.
pub open spec fn platform_after_dispute(platform: Platform, verdict: Verdict, bounty: u64) -> Platform {
    if verdict is CreatorWins {
        platform
    } else {
        Platform {
            total_settled_lamports: (platform.total_settled_lamports + bounty) as u64,
            ..platform
        }
    }
}

/// The agent's profile after a dispute ended with `verdict`. Every dispute
/// counts. A win adds the task's reward and what the agent was paid; a loss
/// takes half the reward, stopping at the least reputation there is; a split
/// adds what the agent was paid and leaves the reputation alone.
pub open spec fn profile_after_dispute(
    profile: AgentProfile,
    verdict: Verdict,
    reward: i64,
    paid: u64,
) -> AgentProfile {
    match verdict {
        Verdict::AgentWins => AgentProfile {
            tasks_disputed: (profile.tasks_disputed + 1) as u64,
            disputes_won: (profile.disputes_won + 1) as u64,
            reputation_score: (profile.reputation_score + reward) as i64,
            total_earned_lamports: (profile.total_earned_lamports + paid) as u64,
            ..profile
        },
        Verdict::CreatorWins => AgentProfile {
            tasks_disputed: (profile.tasks_disputed + 1) as u64,
            disputes_lost: (profile.disputes_lost + 1) as u64,
            reputation_score: clamp_i64(profile.reputation_score - reward / 2),
            ..profile
        },
        Verdict::Split => AgentProfile {
            tasks_disputed: (profile.tasks_disputed + 1) as u64,
            total_earned_lamports: (profile.total_earned_lamports + paid) as u64,
            ..profile
        },
    }
}

/// Whether the counters of `profile` have room for a dispute that ends with
/// `verdict`, a reward of `reward` and a payment of `paid`.
pub open spec fn profile_has_room(
    profile: AgentProfile,
    verdict: Verdict,
    reward: i64,
    paid: u64,
) -> bool {
    &&& fits_u64(profile.tasks_disputed + 1)
    &&& verdict is AgentWins ==> {
        &&& fits_u64(profile.disputes_won + 1)
        &&& fits_i64(profile.reputation_score + reward)
        &&& fits_u64(profile.total_earned_lamports + paid)
    }
    &&& verdict is CreatorWins ==> fits_u64(profile.disputes_lost + 1)
    &&& verdict is Split ==> fits_u64(profile.total_earned_lamports + paid)
}

/// The verdict that the votes of `dispute` give.
pub open spec fn verdict_of(dispute: Dispute) -> Verdict {
    majority_of(dispute.votes_for_creator, dispute.votes_for_agent, dispute.votes_for_split)
}

/// The fee charged on the bounty of the disputed task.
pub open spec fn dispute_fee(ctx: ResolveDispute) -> u64 {
    fee_of(ctx.task.bounty_lamports as int, ctx.platform.fee_bps as int) as u64
}

/// What resolving pays out of the disputed task.
pub open spec fn resolve_dispute_payout(ctx: ResolveDispute) -> Payout {
    distribution_of(verdict_of(ctx.dispute), ctx.task.bounty_lamports, dispute_fee(ctx))
}

/// Why `resolve_dispute` refuses, if it does. The conditions are tested in
/// this order and the first that holds decides.
pub open spec fn resolve_dispute_refusal(ctx: ResolveDispute, now: i64) -> Option<EscrowError> {
    let verdict = verdict_of(ctx.dispute);
    let bounty = ctx.task.bounty_lamports;
    if ctx.dispute.task != ctx.task_key {
        Some(EscrowError::RecordMismatch)
    } else if ctx.creator != ctx.task.creator {
        Some(EscrowError::Rule(VerbittoError::NotTaskCreator))
    } else if ctx.agent != ctx.task.agent {
        Some(EscrowError::Rule(VerbittoError::NotAssignedAgent))
    } else if ctx.agent_profile.authority != ctx.task.agent {
        Some(EscrowError::RecordMismatch)
    } else if ctx.treasury != ctx.platform.treasury {
        Some(EscrowError::Rule(VerbittoError::InvalidTreasury))
    } else if !(ctx.dispute.status is Open) {
        Some(EscrowError::Rule(VerbittoError::DisputeNotOpen))
    } else if !(ctx.task.status is Disputed) {
        Some(EscrowError::Rule(VerbittoError::TaskNotDisputed))
    } else if !fits_i64(voting_deadline(ctx.dispute, ctx.platform)) {
        Some(overflow())
    } else if now < voting_deadline(ctx.dispute, ctx.platform) {
        Some(EscrowError::Rule(VerbittoError::VotingPeriodNotEnded))
    } else if ctx.dispute.total_votes() > u16::MAX {
        Some(overflow())
    } else if ctx.dispute.total_votes() < ctx.platform.dispute_min_votes {
        Some(EscrowError::Rule(VerbittoError::InsufficientVotes))
    } else if !fits_u64(bounty * ctx.platform.fee_bps) {
        Some(overflow())
    } else if !(verdict is CreatorWins) && dispute_fee(ctx) > bounty {
        Some(overflow())
    } else if !(verdict is CreatorWins) && !fits_u64(ctx.platform.total_settled_lamports + bounty) {
        Some(overflow())
    } else if !profile_has_room(
        ctx.agent_profile,
        verdict,
        ctx.task.reputation_reward,
        resolve_dispute_payout(ctx).to_agent,
    ) {
        Some(overflow())
    } else {
        None
    }
}

/// The records after `resolve_dispute` has succeeded at time `now`.
pub open spec fn resolve_dispute_records(ctx: ResolveDispute, now: i64) -> ResolveDispute {
    let verdict = verdict_of(ctx.dispute);
    ResolveDispute {
        dispute: Dispute {
            ruling: verdict.spec_ruling(),
            status: DisputeStatus::Resolved,
            resolved_at: now,
            ..ctx.dispute
        },
        task: task_after_dispute(ctx.task, verdict, now),
        platform: platform_after_dispute(ctx.platform, verdict, ctx.task.bounty_lamports),
        agent_profile: profile_after_dispute(
            ctx.agent_profile,
            verdict,
            ctx.task.reputation_reward,
            resolve_dispute_payout(ctx).to_agent,
        ),
        ..ctx
    }
}

/// The event that `resolve_dispute` publishes.
pub open spec fn resolve_dispute_event(ctx: ResolveDispute) -> DisputeResolved {
    DisputeResolved {
        dispute: ctx.dispute_key,
        task: ctx.task_key,
        ruling: verdict_of(ctx.dispute).spec_ruling(),
        total_votes: ctx.dispute.total_votes() as u16,
    }
}

/// Updates the agent's profile for a dispute that ended with `verdict`.
fn settle_profile(profile: &AgentProfile, verdict: Verdict, reward: i64, paid: u64) -> (after:
    Result<AgentProfile, EscrowError>)
    ensures
        after is Ok <==> profile_has_room(*profile, verdict, reward, paid),
        after matches Ok(p) ==> p == profile_after_dispute(*profile, verdict, reward, paid),
        after matches Err(e) ==> e == overflow(),
{
    let tasks_disputed = add_u64(profile.tasks_disputed, 1)?;
    match verdict {
        Verdict::AgentWins => {
            let disputes_won = add_u64(profile.disputes_won, 1)?;
            let reputation_score = add_i64(profile.reputation_score, reward)?;
            let total_earned_lamports = add_u64(profile.total_earned_lamports, paid)?;
            Ok(
                AgentProfile {
                    authority: profile.authority,
                    reputation_score,
                    tasks_completed: profile.tasks_completed,
                    tasks_disputed,
                    disputes_won,
                    disputes_lost: profile.disputes_lost,
                    total_earned_lamports,
                    registered_at: profile.registered_at,
                    skill_tags: profile.skill_tags,
                },
            )
        },
        Verdict::CreatorWins => {
            let disputes_lost = add_u64(profile.disputes_lost, 1)?;
            let reputation_score = clamped_sub(profile.reputation_score, floor_half(reward));
            Ok(
                AgentProfile {
                    authority: profile.authority,
                    reputation_score,
                    tasks_completed: profile.tasks_completed,
                    tasks_disputed,
                    disputes_won: profile.disputes_won,
                    disputes_lost,
                    total_earned_lamports: profile.total_earned_lamports,
                    registered_at: profile.registered_at,
                    skill_tags: profile.skill_tags,
                },
            )
        },
        Verdict::Split => {
            let total_earned_lamports = add_u64(profile.total_earned_lamports, paid)?;
            Ok(
                AgentProfile {
                    authority: profile.authority,
                    reputation_score: profile.reputation_score,
                    tasks_completed: profile.tasks_completed,
                    tasks_disputed,
                    disputes_won: profile.disputes_won,
                    disputes_lost: profile.disputes_lost,
                    total_earned_lamports,
                    registered_at: profile.registered_at,
                    skill_tags: profile.skill_tags,
                },
            )
        },
    }
}

/// What `resolve_dispute` leaves of the records and what it returns when the
/// clock shows `now`: the refusal and the records as they were, or the new
/// records with the event and the payout.
pub open spec fn resolve_dispute_outcome(ctx: ResolveDispute, now: i64) -> (
    ResolveDispute,
    Result<(DisputeResolved, Payout), EscrowError>,
) {
    match resolve_dispute_refusal(ctx, now) {
        Some(e) => (ctx, Err(e)),
        None => (
            resolve_dispute_records(ctx, now),
            Ok((resolve_dispute_event(ctx), resolve_dispute_payout(ctx))),
        ),
    }
}

/// Resolves a dispute at time `now`, once its voting period has ended.
/// Anyone may call.
///
/// The votes decide by simple majority. The creator's win returns the whole
/// bounty and cancels the task; the agent's win pays the bounty less the fee
/// and approves it; a split halves what is left after the fee, the larger
/// half to the creator, and approves it. The agent's profile takes the
/// consequences.
pub fn resolve_dispute_at(ctx: &mut ResolveDispute, now: i64) -> (r: Result<
    (DisputeResolved, Payout),
    EscrowError,
>)
    ensures
        (*final(ctx), r) == resolve_dispute_outcome(*old(ctx), now),
        r matches Ok(done) ==> {
            &&& done.1.total() == old(ctx).task.bounty_lamports
            &&& done.1.to_treasury == if verdict_of(old(ctx).dispute) is CreatorWins {
                0
            } else {
                fee_of(old(ctx).task.bounty_lamports as int, old(ctx).platform.fee_bps as int)
            }
            &&& done.1.to_treasury <= old(ctx).task.bounty_lamports
            &&& verdict_of(old(ctx).dispute) is Split ==> done.1.to_creator - done.1.to_agent == 0
                || done.1.to_creator - done.1.to_agent == 1
            &&& old(ctx).task.wf() ==> final(ctx).task.wf()
            &&& final(ctx).dispute.wf()
            &&& lifecycle_edge(old(ctx).task.status, final(ctx).task.status)
            &&& custody_step(old(ctx).task, final(ctx).task, done.1)
        },
{
    if ctx.dispute.task != ctx.task_key {
        return Err(EscrowError::RecordMismatch);
    }
    if ctx.creator != ctx.task.creator {
        return Err(EscrowError::Rule(VerbittoError::NotTaskCreator));
    }
    if ctx.agent != ctx.task.agent {
        return Err(EscrowError::Rule(VerbittoError::NotAssignedAgent));
    }
    if ctx.agent_profile.authority != ctx.task.agent {
        return Err(EscrowError::RecordMismatch);
    }
    if ctx.treasury != ctx.platform.treasury {
        return Err(EscrowError::Rule(VerbittoError::InvalidTreasury));
    }
    if ctx.dispute.status != DisputeStatus::Open {
        return Err(EscrowError::Rule(VerbittoError::DisputeNotOpen));
    }
    if ctx.task.status != TaskStatus::Disputed {
        return Err(EscrowError::Rule(VerbittoError::TaskNotDisputed));
    }
    let deadline = add_i64(ctx.dispute.opened_at, ctx.platform.dispute_voting_period)?;
    if now < deadline {
        return Err(EscrowError::Rule(VerbittoError::VotingPeriodNotEnded));
    }
    let total_votes = count_votes(&ctx.dispute)?;
    if total_votes < ctx.platform.dispute_min_votes as u16 {
        return Err(EscrowError::Rule(VerbittoError::InsufficientVotes));
    }
    let verdict = majority(
        ctx.dispute.votes_for_creator,
        ctx.dispute.votes_for_agent,
        ctx.dispute.votes_for_split,
    );
    let bounty = ctx.task.bounty_lamports;
    let fee = platform_fee(bounty, ctx.platform.fee_bps)?;
    let payout = distribute(verdict, bounty, fee)?;
    let total_settled = match verdict {
        Verdict::CreatorWins => ctx.platform.total_settled_lamports,
        _ => add_u64(ctx.platform.total_settled_lamports, bounty)?,
    };
    let profile = settle_profile(
        &ctx.agent_profile,
        verdict,
        ctx.task.reputation_reward,
        payout.to_agent,
    )?;

    ctx.dispute.ruling = verdict.ruling();
    ctx.dispute.status = DisputeStatus::Resolved;
    ctx.dispute.resolved_at = now;
    ctx.task.status = match verdict {
        Verdict::CreatorWins => TaskStatus::Cancelled,
        _ => TaskStatus::Approved,
    };
    ctx.task.settled_at = now;
    ctx.platform.total_settled_lamports = total_settled;
    ctx.agent_profile = profile;
    Ok(
        (
            DisputeResolved {
                dispute: ctx.dispute_key,
                task: ctx.task_key,
                ruling: verdict.ruling(),
                total_votes,
            },
            payout,
        ),
    )
}

/// Resolves a dispute once its voting period has ended. Anyone may call. The
/// time is read from the transaction clock.
///
/// The votes decide by simple majority. The creator's win returns the whole
/// bounty and cancels the task; the agent's win pays the bounty less the fee
/// and approves it; a split halves what is left after the fee, the larger
/// half to the creator, and approves it. The agent's profile takes the
/// consequences. A refusal changes nothing.
pub fn resolve_dispute(ctx: &mut ResolveDispute) -> (r: Result<
    (DisputeResolved, Payout),
    EscrowError,
>)
    ensures
        r == Err::<(DisputeResolved, Payout), EscrowError>(EscrowError::ClockUnavailable)
            && *final(ctx) == *old(ctx)
            || exists|now: i64|
                (*final(ctx), r) == resolve_dispute_outcome(*old(ctx), now),
{
    let now = transaction_time()?;
    resolve_dispute_at(ctx, now)
}

/// The number of votes cast on a dispute, refused where it leaves the range
/// of `u16`.
pub fn count_votes(dispute: &Dispute) -> (total: Result<u16, EscrowError>)
    ensures
        total is Ok <==> dispute.total_votes() <= u16::MAX,
        total matches Ok(t) ==> t == dispute.total_votes(),
        total matches Err(e) ==> e == overflow(),
{
    let first = match dispute.votes_for_creator.checked_add(dispute.votes_for_agent) {
        Some(s) => s,
        None => {
            return Err(EscrowError::Rule(VerbittoError::ArithmeticOverflow));
        },
    };
    match first.checked_add(dispute.votes_for_split) {
        Some(t) => Ok(t),
        None => Err(EscrowError::Rule(VerbittoError::ArithmeticOverflow)),
    }
}

} // verus!
