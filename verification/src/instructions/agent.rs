//! Agent identity: registration and skills. Reputation changes only with
//! settlements and disputes.

use vstd::prelude::*;
use crate::clock::transaction_time;
use crate::contexts::{RegisterAgent, UpdateAgentSkills};
use crate::errors::{EscrowError, VerbittoError};
use crate::events::{AgentProfileUpdated, AgentRegistered};
use crate::identity::Identity;
use crate::state::AgentProfile;

verus! {

/// A profile as registration leaves it: all counters at zero.
pub open spec fn new_profile(authority: Identity, skill_tags: u8, now: i64) -> AgentProfile {
    AgentProfile {
        authority,
        reputation_score: 0,
        tasks_completed: 0,
        tasks_disputed: 0,
        disputes_won: 0,
        disputes_lost: 0,
        total_earned_lamports: 0,
        registered_at: now,
        skill_tags,
    }
}

/// Why `register_agent` refuses, if it does: the caller's profile exists
/// already.
pub open spec fn register_agent_refusal(ctx: RegisterAgent) -> Option<EscrowError> {
    if ctx.agent_profile is Some {
        Some(EscrowError::RecordExists)
    } else {
        None
    }
}

/// The records after `register_agent` has succeeded at time `now`.
pub open spec fn register_agent_records(ctx: RegisterAgent, skill_tags: u8, now: i64) -> RegisterAgent {
    RegisterAgent { agent_profile: Some(new_profile(ctx.authority, skill_tags, now)), ..ctx }
}

/// The event that `register_agent` publishes.
pub open spec fn register_agent_event(ctx: RegisterAgent) -> AgentRegistered {
    AgentRegistered { agent: ctx.authority, profile: ctx.agent_profile_key }
}

/// What `register_agent` leaves of the records and what it returns when the
/// clock shows `now`: the refusal and the records as they were, or the new
/// records and the event.
pub open spec fn register_agent_outcome(ctx: RegisterAgent, skill_tags: u8, now: i64) -> (
    RegisterAgent,
    Result<AgentRegistered, EscrowError>,
) {
    match register_agent_refusal(ctx) {
        Some(e) => (ctx, Err(e)),
        None => (register_agent_records(ctx, skill_tags, now), Ok(register_agent_event(ctx))),
    }
}

/// Registers the caller as an agent at time `now`, once.
pub fn register_agent_at(ctx: &mut RegisterAgent, skill_tags: u8, now: i64) -> (r: Result<
    AgentRegistered,
    EscrowError,
>)
    ensures
        (*final(ctx), r) == register_agent_outcome(*old(ctx), skill_tags, now),
{
    if ctx.agent_profile.is_some() {
        return Err(EscrowError::RecordExists);
    }
    ctx.agent_profile = Some(
        AgentProfile {
            authority: ctx.authority,
            reputation_score: 0,
            tasks_completed: 0,
            tasks_disputed: 0,
            disputes_won: 0,
            disputes_lost: 0,
            total_earned_lamports: 0,
            registered_at: now,
            skill_tags,
        },
    );
    Ok(AgentRegistered { agent: ctx.authority, profile: ctx.agent_profile_key })
}

/// Registers the caller as an agent, once. The time of registration is read
/// from the transaction clock. A refusal changes nothing.
pub fn register_agent(ctx: &mut RegisterAgent, skill_tags: u8) -> (r: Result<
    AgentRegistered,
    EscrowError,
>)
    ensures
        r == Err::<AgentRegistered, EscrowError>(EscrowError::ClockUnavailable)
            && *final(ctx) == *old(ctx)
            || exists|now: i64|
                (*final(ctx), r) == register_agent_outcome(*old(ctx), skill_tags, now),
{
    let now = transaction_time()?;
    register_agent_at(ctx, skill_tags, now)
}

/// Why `update_agent_skills` refuses, if it does: the profile is another
/// agent's.
pub open spec fn update_agent_skills_refusal(ctx: UpdateAgentSkills) -> Option<EscrowError> {
    if ctx.agent_profile.authority != ctx.authority {
        Some(EscrowError::Rule(VerbittoError::NotProfileOwner))
    } else {
        None
    }
}

/// The records after `update_agent_skills` has succeeded: the skills are
/// replaced, the track record stays.
pub open spec fn update_agent_skills_records(
    ctx: UpdateAgentSkills,
    skill_tags: u8,
) -> UpdateAgentSkills {
    UpdateAgentSkills { agent_profile: AgentProfile { skill_tags, ..ctx.agent_profile }, ..ctx }
}

/// The event that `update_agent_skills` publishes.
pub open spec fn update_agent_skills_event(ctx: UpdateAgentSkills) -> AgentProfileUpdated {
    AgentProfileUpdated {
        agent: ctx.authority,
        reputation_score: ctx.agent_profile.reputation_score,
        tasks_completed: ctx.agent_profile.tasks_completed,
    }
}

/// What `update_agent_skills` leaves of the records and what it returns.
pub open spec fn update_agent_skills_outcome(ctx: UpdateAgentSkills, skill_tags: u8) -> (
    UpdateAgentSkills,
    Result<AgentProfileUpdated, EscrowError>,
) {
    match update_agent_skills_refusal(ctx) {
        Some(e) => (ctx, Err(e)),
        None => (
            update_agent_skills_records(ctx, skill_tags),
            Ok(update_agent_skills_event(ctx)),
        ),
    }
}

/// Replaces the skills of the caller's profile. A refusal changes nothing.
pub fn update_agent_skills(ctx: &mut UpdateAgentSkills, skill_tags: u8) -> (r: Result<
    AgentProfileUpdated,
    EscrowError,
>)
    ensures
        (*final(ctx), r) == update_agent_skills_outcome(*old(ctx), skill_tags),
{
    if ctx.agent_profile.authority != ctx.authority {
        return Err(EscrowError::Rule(VerbittoError::NotProfileOwner));
    }
    ctx.agent_profile.skill_tags = skill_tags;
    Ok(
        AgentProfileUpdated {
            agent: ctx.authority,
            reputation_score: ctx.agent_profile.reputation_score,
            tasks_completed: ctx.agent_profile.tasks_completed,
        },
    )
}

} // verus!
