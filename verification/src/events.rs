//! What an operation publishes once it has succeeded. A refused operation
//! publishes nothing.

use vstd::prelude::*;
use crate::identity::Identity;
use crate::state::{DisputeReason, Ruling, TaskCategory};

verus! {

/// The platform was set up.
#[derive(Clone, Copy, Debug, PartialEq, Eq)]
pub struct PlatformInitialized {
    pub authority: Identity,
    pub fee_bps: u16,
    pub treasury: Identity,
}

/// A task was created and its bounty deposited.
#[derive(Clone, Copy, Debug, PartialEq, Eq)]
pub struct TaskCreated {
    pub task: Identity,
    pub creator: Identity,
    pub task_index: u64,
    pub bounty_lamports: u64,
    pub deadline: i64,
}

/// An agent claimed a task.
#[derive(Clone, Copy, Debug, PartialEq, Eq)]
pub struct TaskClaimed {
    pub task: Identity,
    pub agent: Identity,
    pub task_index: u64,
}

/// The agent submitted a deliverable.
#[derive(Clone, Copy, Debug, PartialEq, Eq)]
pub struct DeliverableSubmitted {
    pub task: Identity,
    pub agent: Identity,
    pub deliverable_hash: [u8; 32],
}

/// The creator approved and the bounty was paid out.
#[derive(Clone, Copy, Debug, PartialEq, Eq)]
pub struct TaskSettled {
    pub task: Identity,
    pub agent: Identity,
    pub payout_lamports: u64,
    pub fee_lamports: u64,
}

/// The creator rejected a submission.
#[derive(Clone, Copy, Debug, PartialEq, Eq)]
pub struct SubmissionRejected {
    pub task: Identity,
    pub agent: Identity,
    pub reason_hash: [u8; 32],
}

/// The creator cancelled an open task.
#[derive(Clone, Copy, Debug, PartialEq, Eq)]
pub struct TaskCancelled {
    pub task: Identity,
    pub creator: Identity,
    pub refunded_lamports: u64,
}

/// A task expired.
#[derive(Clone, Copy, Debug, PartialEq, Eq)]
pub struct TaskExpired {
    pub task: Identity,
    pub creator: Identity,
    pub refunded_lamports: u64,
}

/// A template was created.
#[derive(Clone, Copy, Debug, PartialEq, Eq)]
pub struct TemplateCreated {
    pub template: Identity,
    pub creator: Identity,
    pub template_index: u64,
    pub category: TaskCategory,
}

/// A dispute was opened.
#[derive(Clone, Copy, Debug, PartialEq, Eq)]
pub struct DisputeOpened {
    pub dispute: Identity,
    pub task: Identity,
    pub initiator: Identity,
    pub reason: DisputeReason,
}

/// An arbitrator voted.
#[derive(Clone, Copy, Debug, PartialEq, Eq)]
pub struct VoteCast {
    pub dispute: Identity,
    pub voter: Identity,
    pub ruling: Ruling,
}

/// A dispute was resolved.
#[derive(Clone, Copy, Debug, PartialEq, Eq)]
pub struct DisputeResolved {
    pub dispute: Identity,
    pub task: Identity,
    pub ruling: Ruling,
    pub total_votes: u16,
}

/// An agent registered.
#[derive(Clone, Copy, Debug, PartialEq, Eq)]
pub struct AgentRegistered {
    pub agent: Identity,
    pub profile: Identity,
}

/// An agent changed its profile.
#[derive(Clone, Copy, Debug, PartialEq, Eq)]
pub struct AgentProfileUpdated {
    pub agent: Identity,
    pub reputation_score: i64,
    pub tasks_completed: u64,
}

} // verus!
