//! The records that make up the marketplace's durable state.

use vstd::prelude::*;
use crate::identity::Identity;

verus! {

/// Highest fee rate a platform may charge, in basis points.
pub const MAX_FEE_BPS: u16 = 3001;

/// Denominator of a rate given in basis points.
pub const BPS_DENOMINATOR: u64 = 10000;

/// Highest number of characters in a title.
pub const MAX_TITLE_LEN: usize = 64;

/// Highest reputation reward a task may grant.
pub const MAX_REPUTATION_REWARD: i64 = 1000;

/// Number of rejections at which a task goes to dispute by itself.
pub const MAX_REJECTIONS: u8 = 3;

/// Where a task stands in its lifecycle.
#[derive(Clone, Copy, Debug, PartialEq, Eq, Structural)]
pub enum TaskStatus {
    /// Accepting claims.
    Open,
    /// An agent is working.
    Claimed,
    /// A deliverable awaits review.
    Submitted,
    /// The creator approved; the escrow is settled.
    Approved,
    /// The creator rejected the submission.
    Rejected,
    /// The creator cancelled before any claim, or won the dispute.
    Cancelled,
    /// Past its deadline; the bounty went back.
    Expired,
    /// Under arbitration.
    Disputed,
}

impl TaskStatus {
    /// A terminal status ends the task: its record is destroyed and holds
    /// no value any more.
    pub open spec fn spec_is_terminal(&self) -> bool {
        *self is Approved || *self is Cancelled || *self is Expired
    }

    /// Whether this status ends the task.
    #[verifier::when_used_as_spec(spec_is_terminal)]
    pub fn is_terminal(&self) -> (terminal: bool)
        ensures
            terminal == self.spec_is_terminal(),
    {
        match self {
            TaskStatus::Approved | TaskStatus::Cancelled | TaskStatus::Expired => true,
            _ => false,
        }
    }
}

/// The edges of the task lifecycle: `to` may directly follow `from`.
pub open spec fn lifecycle_edge(from: TaskStatus, to: TaskStatus) -> bool {
    match from {
        TaskStatus::Open => to is Claimed || to is Cancelled || to is Expired,
        TaskStatus::Claimed => to is Submitted || to is Expired,
        TaskStatus::Submitted => to is Approved || to is Rejected || to is Disputed,
        TaskStatus::Rejected => to is Submitted || to is Disputed,
        TaskStatus::Disputed => to is Approved || to is Cancelled,
        TaskStatus::Approved | TaskStatus::Cancelled | TaskStatus::Expired => false,
    }
}

/// What kind of work a template asks for.
#[derive(Clone, Copy, Debug, PartialEq, Eq, Structural)]
pub enum TaskCategory {
    DataLabeling,
    LiteratureReview,
    CodeReview,
    Translation,
    Analysis,
    Research,
    Other,
}

/// Why a dispute was opened.
#[derive(Clone, Copy, Debug, PartialEq, Eq, Structural)]
pub enum DisputeReason {
    QualityIssue,
    DeadlineMissed,
    Plagiarism,
    Other,
}

/// Whether a dispute still takes votes.
#[derive(Clone, Copy, Debug, PartialEq, Eq, Structural)]
pub enum DisputeStatus {
    Open,
    Resolved,
}

/// A ruling as it is stored and cast. `Pending` is the undecided one.
#[derive(Clone, Copy, Debug, PartialEq, Eq, Structural)]
pub enum Ruling {
    Pending,
    CreatorWins,
    AgentWins,
    Split,
}

/// A decided ruling: one that a vote may carry and a dispute may end with.
#[derive(Clone, Copy, Debug, PartialEq, Eq, Structural)]
pub enum Verdict {
    CreatorWins,
    AgentWins,
    Split,
}

impl Ruling {
    /// The verdict this ruling stands for; none for `Pending`.
    pub open spec fn spec_decided(&self) -> Option<Verdict> {
        match *self {
            Ruling::Pending => None,
            Ruling::CreatorWins => Some(Verdict::CreatorWins),
            Ruling::AgentWins => Some(Verdict::AgentWins),
            Ruling::Split => Some(Verdict::Split),
        }
    }

    /// Narrows a ruling to a verdict.
    #[verifier::when_used_as_spec(spec_decided)]
    pub fn decided(&self) -> (verdict: Option<Verdict>)
        ensures
            verdict == self.spec_decided(),
    {
        match self {
            Ruling::Pending => None,
            Ruling::CreatorWins => Some(Verdict::CreatorWins),
            Ruling::AgentWins => Some(Verdict::AgentWins),
            Ruling::Split => Some(Verdict::Split),
        }
    }
}

impl Verdict {
    /// The verdict as a stored ruling.
    pub open spec fn spec_ruling(&self) -> Ruling {
        match *self {
            Verdict::CreatorWins => Ruling::CreatorWins,
            Verdict::AgentWins => Ruling::AgentWins,
            Verdict::Split => Ruling::Split,
        }
    }

    /// Widens a verdict to a ruling. The result is never `Pending`.
    #[verifier::when_used_as_spec(spec_ruling)]
    pub fn ruling(&self) -> (ruling: Ruling)
        ensures
            ruling == self.spec_ruling(),
            ruling.spec_decided() == Some(*self),
    {
        match self {
            Verdict::CreatorWins => Ruling::CreatorWins,
            Verdict::AgentWins => Ruling::AgentWins,
            Verdict::Split => Ruling::Split,
        }
    }
}

/// The platform's configuration and running totals. There is one.
#[derive(Clone, Copy, Debug, PartialEq, Eq)]
pub struct Platform {
    /// Who may change the configuration.
    pub authority: Identity,
    /// Fee in basis points (250 = 2.5%).
    pub fee_bps: u16,
    /// Smallest bounty a task may carry.
    pub min_bounty_lamports: u64,
    /// Who receives the fees.
    pub treasury: Identity,
    /// Number of tasks ever created.
    pub task_count: u64,
    /// Number of templates ever created.
    pub template_count: u64,
    /// Sum of the bounties settled in an agent's favour, wholly or in part.
    pub total_settled_lamports: u64,
    /// Length of a dispute's voting period, in seconds.
    pub dispute_voting_period: i64,
    /// Number of votes a dispute needs to be resolved.
    pub dispute_min_votes: u8,
    /// Reputation a voter needs.
    pub min_voter_reputation: i64,
    /// Seconds after the deadline during which a claimed task cannot expire.
    pub claim_grace_period: i64,
    /// Emergency stop.
    pub is_paused: bool,
}

impl Platform {
    /// Whether two states of the platform agree in authority, treasury and
    /// every setting; the running totals and the pause may differ.
    pub open spec fn same_settings(&self, other: Platform) -> bool {
        &&& self.authority == other.authority
        &&& self.fee_bps == other.fee_bps
        &&& self.min_bounty_lamports == other.min_bounty_lamports
        &&& self.treasury == other.treasury
        &&& self.dispute_voting_period == other.dispute_voting_period
        &&& self.dispute_min_votes == other.dispute_min_votes
        &&& self.min_voter_reputation == other.min_voter_reputation
        &&& self.claim_grace_period == other.claim_grace_period
    }

    /// The ranges that initialisation and every update keep the settings in.
    pub open spec fn wf(&self) -> bool {
        &&& self.fee_bps <= MAX_FEE_BPS
        &&& self.dispute_voting_period > 0
        &&& self.dispute_min_votes > 0
        &&& self.min_voter_reputation >= 0
        &&& self.claim_grace_period >= 0
    }
}

/// A creator's next task index.
#[derive(Clone, Copy, Debug, PartialEq, Eq)]
pub struct CreatorCounter {
    /// The creator.
    pub authority: Identity,
    /// Index that the creator's next task must declare.
    pub task_count: u64,
}

/// A task and the bounty held for it.
#[derive(Clone, Debug, PartialEq, Eq)]
pub struct Task {
    /// Who deposited the bounty.
    pub creator: Identity,
    /// Index among the creator's tasks.
    pub task_index: u64,
    /// The bounty, held by this record until a terminal transition.
    pub bounty_lamports: u64,
    /// Where the task stands.
    pub status: TaskStatus,
    /// The assigned agent; unset until the task is claimed.
    pub agent: Identity,
    /// Time by which the work is due.
    pub deadline: i64,
    /// Time of creation.
    pub created_at: i64,
    /// Time of settlement; 0 until settled.
    pub settled_at: i64,
    /// Reputation granted on success.
    pub reputation_reward: i64,
    /// Title, 64 characters at most.
    pub title: String,
    /// Content hash of the full description.
    pub description_hash: [u8; 32],
    /// Content hash of the deliverable.
    pub deliverable_hash: [u8; 32],
    /// 0 for none, else the template's index plus one.
    pub template_index: u64,
    /// How often the creator rejected a submission.
    pub rejection_count: u8,
}

impl Task {
    /// What every task made and changed by the operations satisfies.
    pub open spec fn wf(&self) -> bool {
        &&& self.title@.len() <= MAX_TITLE_LEN
        &&& 0 <= self.reputation_reward <= MAX_REPUTATION_REWARD
        &&& self.rejection_count <= MAX_REJECTIONS
        &&& self.status is Open ==> self.agent == Identity::unset() && self.rejection_count == 0
        &&& self.status is Rejected ==> self.rejection_count > 0
        &&& self.rejection_count == MAX_REJECTIONS ==> self.status is Disputed
            || self.status is Approved || self.status is Cancelled
    }

    /// The value the task record holds: its bounty while the task lives,
    /// nothing once a terminal transition has paid it out.
    pub open spec fn spec_held_lamports(&self) -> u64 {
        if self.status.spec_is_terminal() {
            0
        } else {
            self.bounty_lamports
        }
    }

    /// The value the task record holds.
    #[verifier::when_used_as_spec(spec_held_lamports)]
    pub fn held_lamports(&self) -> (held: u64)
        ensures
            held == self.spec_held_lamports(),
    {
        if self.status.is_terminal() {
            0
        } else {
            self.bounty_lamports
        }
    }
}

/// A reusable task description.
#[derive(Clone, Debug, PartialEq, Eq)]
pub struct TaskTemplate {
    /// Who made the template.
    pub creator: Identity,
    /// Index among all templates of the platform.
    pub template_index: u64,
    /// Title, 64 characters at most.
    pub title: String,
    /// Content hash of the description.
    pub description_hash: [u8; 32],
    /// Bounty of a task that names none.
    pub default_bounty_lamports: u64,
    /// Number of tasks made from the template.
    pub times_used: u64,
    /// Kind of work.
    pub category: TaskCategory,
    /// Whether tasks can still be made from it.
    pub is_active: bool,
}

impl TaskTemplate {
    /// What every template made by `create_template` satisfies.
    pub open spec fn wf(&self) -> bool {
        self.title@.len() <= MAX_TITLE_LEN
    }
}

/// A dispute over a task.
#[derive(Clone, Copy, Debug, PartialEq, Eq)]
pub struct Dispute {
    /// Address of the disputed task.
    pub task: Identity,
    /// Who opened the dispute.
    pub initiator: Identity,
    /// Why.
    pub reason: DisputeReason,
    /// Content hash of the evidence.
    pub evidence_hash: [u8; 32],
    /// Whether votes are still taken.
    pub status: DisputeStatus,
    /// Votes for the creator.
    pub votes_for_creator: u16,
    /// Votes for the agent.
    pub votes_for_agent: u16,
    /// Votes for a split.
    pub votes_for_split: u16,
    /// Time the dispute was opened.
    pub opened_at: i64,
    /// Time the dispute was resolved; 0 while open.
    pub resolved_at: i64,
    /// The final ruling; `Pending` while open.
    pub ruling: Ruling,
}

impl Dispute {
    /// Number of votes cast so far.
    pub open spec fn total_votes(&self) -> int {
        self.votes_for_creator + self.votes_for_agent + self.votes_for_split
    }

    /// An open dispute has no ruling yet, a resolved one has a decided one.
    pub open spec fn wf(&self) -> bool {
        &&& self.status is Open ==> self.ruling is Pending && self.resolved_at == 0
        &&& self.status is Resolved ==> !(self.ruling is Pending)
    }
}

/// One arbitrator's vote on one dispute. There is at most one per dispute
/// and voter.
#[derive(Clone, Copy, Debug, PartialEq, Eq)]
pub struct ArbitratorVote {
    /// Address of the dispute.
    pub dispute: Identity,
    /// The voter.
    pub arbitrator: Identity,
    /// The ruling cast; never `Pending`.
    pub ruling: Ruling,
    /// Time of the vote.
    pub voted_at: i64,
}

/// An agent's identity and track record.
#[derive(Clone, Copy, Debug, PartialEq, Eq)]
pub struct AgentProfile {
    /// The agent.
    pub authority: Identity,
    /// Reputation; may be negative.
    pub reputation_score: i64,
    /// Tasks completed with approval.
    pub tasks_completed: u64,
    /// Tasks that went through a resolved dispute.
    pub tasks_disputed: u64,
    /// Disputes the agent won.
    pub disputes_won: u64,
    /// Disputes the agent lost.
    pub disputes_lost: u64,
    /// Value earned in all.
    pub total_earned_lamports: u64,
    /// Time of registration.
    pub registered_at: i64,
    /// Skill bitmap (bit 0 = data labeling, 1 = literature review, ..., 6 = other).
    pub skill_tags: u8,
}

} // verus!
