//! The records and identities that each operation works on.
//!
//! A field of a record type holds a record that exists. An `Option` holds the
//! place of a record that the operation creates: `None` while the place is
//! vacant, `Some` once a record lives there. A field named `.._key` is the
//! address of the record beside it. The remaining identities are the caller
//! and the wallets that value moves to.

use vstd::prelude::*;
use crate::identity::Identity;
use crate::state::{
    AgentProfile, ArbitratorVote, CreatorCounter, Dispute, Platform, Task, TaskTemplate,
};

verus! {

/// Setting up the platform.
#[derive(Clone, Copy, Debug, PartialEq, Eq)]
pub struct InitializePlatform {
    /// The platform's place; vacant before the platform is set up.
    pub platform: Option<Platform>,
    /// Who is to receive the fees.
    pub treasury: Identity,
    /// The caller, who becomes the platform authority.
    pub authority: Identity,
}

/// Pausing, resuming and reconfiguring the platform.
#[derive(Clone, Copy, Debug, PartialEq, Eq)]
pub struct PlatformAdmin {
    pub platform: Platform,
    /// The caller; must be the platform authority.
    pub authority: Identity,
}

/// Registering an agent.
#[derive(Clone, Copy, Debug, PartialEq, Eq)]
pub struct RegisterAgent {
    /// Address of the caller's profile.
    pub agent_profile_key: Identity,
    /// The place of the caller's profile; vacant before registration.
    pub agent_profile: Option<AgentProfile>,
    /// The caller.
    pub authority: Identity,
}

/// Changing an agent's skills.
#[derive(Clone, Copy, Debug, PartialEq, Eq)]
pub struct UpdateAgentSkills {
    pub agent_profile: AgentProfile,
    /// The caller; must own the profile.
    pub authority: Identity,
}

/// Creating a task.
#[derive(Clone, Debug, PartialEq, Eq)]
pub struct CreateTask {
    /// Address of the new task.
    pub task_key: Identity,
    /// The new task's place; vacant before creation.
    pub task: Option<Task>,
    /// The creator's counter; vacant before the creator's first task.
    pub creator_counter: Option<CreatorCounter>,
    pub platform: Platform,
    /// The caller, who deposits the bounty.
    pub creator: Identity,
}

/// Creating a task from a template.
#[derive(Clone, Debug, PartialEq, Eq)]
pub struct CreateTaskFromTemplate {
    /// Address of the new task.
    pub task_key: Identity,
    /// The new task's place; vacant before creation.
    pub task: Option<Task>,
    /// The creator's counter; vacant before the creator's first task.
    pub creator_counter: Option<CreatorCounter>,
    pub template: TaskTemplate,
    pub platform: Platform,
    /// The caller, who deposits the bounty.
    pub creator: Identity,
}

/// Claiming a task.
#[derive(Clone, Debug, PartialEq, Eq)]
pub struct ClaimTask {
    pub task_key: Identity,
    pub task: Task,
    pub platform: Platform,
    /// The caller's profile: only a registered agent can claim.
    pub agent_profile: AgentProfile,
    /// The caller.
    pub agent: Identity,
}

/// Submitting a deliverable.
#[derive(Clone, Debug, PartialEq, Eq)]
pub struct SubmitDeliverable {
    pub task_key: Identity,
    pub task: Task,
    pub platform: Platform,
    /// The caller; must be the assigned agent.
    pub agent: Identity,
}

/// Approving a submission and paying it out.
#[derive(Clone, Debug, PartialEq, Eq)]
pub struct ApproveAndSettle {
    pub task_key: Identity,
    pub task: Task,
    pub platform: Platform,
    /// The caller; must be the task's creator.
    pub creator: Identity,
    /// The wallet that receives the payout; must be the assigned agent's.
    pub agent: Identity,
    /// The assigned agent's profile.
    pub agent_profile: AgentProfile,
    /// The wallet that receives the fee; must be the platform's treasury.
    pub treasury: Identity,
}

/// Rejecting a submission.
#[derive(Clone, Debug, PartialEq, Eq)]
pub struct RejectSubmission {
    pub task_key: Identity,
    pub task: Task,
    /// The caller; must be the task's creator.
    pub creator: Identity,
}

/// Cancelling an open task.
#[derive(Clone, Debug, PartialEq, Eq)]
pub struct CancelTask {
    pub task_key: Identity,
    pub task: Task,
    /// The caller; must be the task's creator.
    pub creator: Identity,
}

/// Expiring a task past its deadline. Anyone may call.
#[derive(Clone, Debug, PartialEq, Eq)]
pub struct ExpireTask {
    pub task_key: Identity,
    pub task: Task,
    /// The wallet that receives the refund; must be the task's creator's.
    pub creator: Identity,
    pub platform: Platform,
    /// The caller.
    pub caller: Identity,
}

/// Creating a template.
#[derive(Clone, Debug, PartialEq, Eq)]
pub struct CreateTemplate {
    /// Address of the new template.
    pub template_key: Identity,
    /// The new template's place; vacant before creation.
    pub template: Option<TaskTemplate>,
    pub platform: Platform,
    /// The caller.
    pub creator: Identity,
}

/// Deactivating a template.
#[derive(Clone, Debug, PartialEq, Eq)]
pub struct DeactivateTemplate {
    pub template: TaskTemplate,
    /// The caller; must be the template's creator.
    pub creator: Identity,
}

/// Opening a dispute.
#[derive(Clone, Debug, PartialEq, Eq)]
pub struct OpenDispute {
    pub task_key: Identity,
    pub task: Task,
    /// Address of the task's dispute.
    pub dispute_key: Identity,
    /// The place of the task's dispute; vacant before it is opened.
    pub dispute: Option<Dispute>,
    /// The caller; must be the task's creator or its agent.
    pub initiator: Identity,
}

/// Voting on a dispute.
#[derive(Clone, Debug, PartialEq, Eq)]
pub struct CastVote {
    pub task_key: Identity,
    /// The task that the dispute is about.
    pub task: Task,
    pub dispute_key: Identity,
    pub dispute: Dispute,
    pub platform: Platform,
    /// The place of the caller's vote on this dispute; vacant before the vote.
    pub vote: Option<ArbitratorVote>,
    /// The caller's profile: only a registered agent can vote.
    pub voter_profile: AgentProfile,
    /// The caller.
    pub voter: Identity,
}

/// Resolving a dispute. Anyone may call.
#[derive(Clone, Debug, PartialEq, Eq)]
pub struct ResolveDispute {
    pub dispute_key: Identity,
    pub dispute: Dispute,
    pub task_key: Identity,
    pub task: Task,
    pub platform: Platform,
    /// The wallet of the task's creator.
    pub creator: Identity,
    /// The wallet of the task's agent.
    pub agent: Identity,
    /// The assigned agent's profile.
    pub agent_profile: AgentProfile,
    /// The wallet that receives the fee; must be the platform's treasury.
    pub treasury: Identity,
    /// The caller.
    pub caller: Identity,
}

} // verus!
