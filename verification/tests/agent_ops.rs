//! Agent registration and skills.

use task_escrow::contexts::{RegisterAgent, UpdateAgentSkills};
use task_escrow::errors::{EscrowError, VerbittoError};
use task_escrow::events::{AgentProfileUpdated, AgentRegistered};
use task_escrow::identity::Identity;
use task_escrow::instructions::{register_agent_at, update_agent_skills};
use task_escrow::state::AgentProfile;

fn id(n: u8) -> Identity {
    Identity::new([n; 32])
}

fn seasoned() -> AgentProfile {
    AgentProfile {
        authority: id(4),
        reputation_score: -15,
        tasks_completed: 6,
        tasks_disputed: 2,
        disputes_won: 1,
        disputes_lost: 1,
        total_earned_lamports: 12345,
        registered_at: 77,
        skill_tags: 0b0000_0001,
    }
}

#[test]
fn registration_starts_all_counters_at_zero() {
    let mut ctx = RegisterAgent { agent_profile_key: id(40), agent_profile: None, authority: id(4) };
    let ev = register_agent_at(&mut ctx, 0b0100_0010, 123).unwrap();
    assert_eq!(ev, AgentRegistered { agent: id(4), profile: id(40) });
    assert_eq!(
        ctx.agent_profile,
        Some(AgentProfile {
            authority: id(4),
            reputation_score: 0,
            tasks_completed: 0,
            tasks_disputed: 0,
            disputes_won: 0,
            disputes_lost: 0,
            total_earned_lamports: 0,
            registered_at: 123,
            skill_tags: 0b0100_0010,
        })
    );
}

#[test]
fn second_registration_fails_and_keeps_the_profile() {
    let mut ctx = RegisterAgent { agent_profile_key: id(40), agent_profile: None, authority: id(4) };
    register_agent_at(&mut ctx, 1, 123).unwrap();
    let before = ctx;
    assert_eq!(register_agent_at(&mut ctx, 2, 456), Err(EscrowError::RecordExists));
    assert_eq!(ctx, before);

    let mut ctx = RegisterAgent {
        agent_profile_key: id(40),
        agent_profile: Some(seasoned()),
        authority: id(4),
    };
    assert_eq!(register_agent_at(&mut ctx, 2, 456), Err(EscrowError::RecordExists));
    assert_eq!(ctx.agent_profile, Some(seasoned()));
}

#[test]
fn owner_replaces_skills_and_nothing_else() {
    let mut ctx = UpdateAgentSkills { agent_profile: seasoned(), authority: id(4) };
    let ev = update_agent_skills(&mut ctx, 0b0111_1111).unwrap();
    assert_eq!(
        ev,
        AgentProfileUpdated { agent: id(4), reputation_score: -15, tasks_completed: 6 }
    );
    assert_eq!(ctx.agent_profile, AgentProfile { skill_tags: 0b0111_1111, ..seasoned() });
}

#[test]
fn stranger_cannot_change_skills() {
    let mut ctx = UpdateAgentSkills { agent_profile: seasoned(), authority: id(5) };
    assert_eq!(
        update_agent_skills(&mut ctx, 0),
        Err(EscrowError::Rule(VerbittoError::NotProfileOwner))
    );
    assert_eq!(ctx.agent_profile, seasoned());
}
