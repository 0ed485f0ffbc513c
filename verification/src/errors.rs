//! Why an operation is refused.

use vstd::prelude::*;

verus! {

/// The marketplace's own refusals, one per condition.
#[derive(Clone, Copy, Debug, PartialEq, Eq, Structural)]
pub enum VerbittoError {
    /// The fee rate is above the highest rate a platform may charge.
    InvalidFee,
    /// A platform setting is out of range.
    InvalidConfig,
    /// The bounty is below the platform minimum.
    BountyTooLow,
    /// The title has more than 64 characters.
    TitleTooLong,
    /// The deadline is not in the future.
    DeadlineInPast,
    /// The reputation reward is outside 0..=1000.
    InvalidRepReward,
    /// The task is not open.
    TaskNotOpen,
    /// The task has passed its deadline.
    TaskExpired,
    /// The task is neither claimed nor rejected.
    TaskNotClaimedOrRejected,
    /// The caller is not the assigned agent.
    NotAssignedAgent,
    /// The task is not submitted.
    TaskNotSubmitted,
    /// The caller is not the task's creator.
    NotTaskCreator,
    /// The deadline has not been reached yet.
    DeadlineNotReached,
    /// The task cannot expire in its current status.
    TaskCannotExpire,
    /// The template is not active.
    TemplateInactive,
    /// The task is in no status that can be disputed.
    TaskNotDisputable,
    /// The caller is neither the task's creator nor its agent.
    NotTaskParty,
    /// The dispute is not open.
    DisputeNotOpen,
    /// The task is not disputed.
    TaskNotDisputed,
    /// The ruling cast is the undecided one.
    InvalidRuling,
    /// The voting period has ended.
    VotingPeriodEnded,
    /// The voting period has not ended yet.
    VotingPeriodNotEnded,
    /// A party to the task tried to vote on its dispute.
    PartyCannotVote,
    /// Too few votes were cast to resolve the dispute.
    InsufficientVotes,
    /// The dispute does not reference the task.
    DisputeTaskMismatch,
    /// The treasury is not the one the platform names.
    InvalidTreasury,
    /// The caller does not own the profile.
    NotProfileOwner,
    /// The voter's reputation is below the platform minimum.
    InsufficientReputation,
    /// The platform is paused.
    PlatformPaused,
    /// The platform is already paused.
    PlatformAlreadyPaused,
    /// The platform is not paused.
    PlatformNotPaused,
    /// The caller is not the platform authority.
    NotPlatformAuthority,
    /// A value or a counter would leave its range.
    ArithmeticOverflow,
    /// The rejection limit was reached. No operation refuses with it: the
    /// third rejection sends the task to dispute instead.
    MaxRejectionsReached,
    /// The declared task index is not the creator's next index.
    InvalidTaskIndex,
}

/// The kinds of refusal.
#[derive(Clone, Copy, Debug, PartialEq, Eq, Structural)]
pub enum ErrorKind {
    /// A parameter or a record handed in is malformed.
    Validation,
    /// The operation is not valid in the current status.
    State,
    /// The caller is not who the operation requires.
    Authorization,
    /// A value or a counter would leave its range.
    Arithmetic,
    /// A deadline or a voting period has not come yet, or has passed.
    Timing,
    /// Too few votes.
    Quorum,
}

impl VerbittoError {
    /// The kind of each refusal.
    pub open spec fn spec_kind(&self) -> ErrorKind {
        match *self {
            VerbittoError::InvalidFee
            | VerbittoError::InvalidConfig
            | VerbittoError::BountyTooLow
            | VerbittoError::TitleTooLong
            | VerbittoError::DeadlineInPast
            | VerbittoError::InvalidRepReward
            | VerbittoError::InvalidRuling
            | VerbittoError::DisputeTaskMismatch
            | VerbittoError::InvalidTreasury
            | VerbittoError::InvalidTaskIndex => ErrorKind::Validation,
            VerbittoError::TaskNotOpen
            | VerbittoError::TaskNotClaimedOrRejected
            | VerbittoError::TaskNotSubmitted
            | VerbittoError::TaskCannotExpire
            | VerbittoError::TemplateInactive
            | VerbittoError::TaskNotDisputable
            | VerbittoError::DisputeNotOpen
            | VerbittoError::TaskNotDisputed
            | VerbittoError::PlatformPaused
            | VerbittoError::PlatformAlreadyPaused
            | VerbittoError::PlatformNotPaused
            | VerbittoError::MaxRejectionsReached => ErrorKind::State,
            VerbittoError::NotAssignedAgent
            | VerbittoError::NotTaskCreator
            | VerbittoError::NotTaskParty
            | VerbittoError::PartyCannotVote
            | VerbittoError::NotProfileOwner
            | VerbittoError::InsufficientReputation
            | VerbittoError::NotPlatformAuthority => ErrorKind::Authorization,
            VerbittoError::ArithmeticOverflow => ErrorKind::Arithmetic,
            VerbittoError::TaskExpired
            | VerbittoError::DeadlineNotReached
            | VerbittoError::VotingPeriodEnded
            | VerbittoError::VotingPeriodNotEnded => ErrorKind::Timing,
            VerbittoError::InsufficientVotes => ErrorKind::Quorum,
        }
    }

    /// The kind of this refusal.
    #[verifier::when_used_as_spec(spec_kind)]
    pub fn kind(&self) -> (kind: ErrorKind)
        ensures
            kind == self.spec_kind(),
    {
        match self {
            VerbittoError::InvalidFee
            | VerbittoError::InvalidConfig
            | VerbittoError::BountyTooLow
            | VerbittoError::TitleTooLong
            | VerbittoError::DeadlineInPast
            | VerbittoError::InvalidRepReward
            | VerbittoError::InvalidRuling
            | VerbittoError::DisputeTaskMismatch
            | VerbittoError::InvalidTreasury
            | VerbittoError::InvalidTaskIndex => ErrorKind::Validation,
            VerbittoError::TaskNotOpen
            | VerbittoError::TaskNotClaimedOrRejected
            | VerbittoError::TaskNotSubmitted
            | VerbittoError::TaskCannotExpire
            | VerbittoError::TemplateInactive
            | VerbittoError::TaskNotDisputable
            | VerbittoError::DisputeNotOpen
            | VerbittoError::TaskNotDisputed
            | VerbittoError::PlatformPaused
            | VerbittoError::PlatformAlreadyPaused
            | VerbittoError::PlatformNotPaused
            | VerbittoError::MaxRejectionsReached => ErrorKind::State,
            VerbittoError::NotAssignedAgent
            | VerbittoError::NotTaskCreator
            | VerbittoError::NotTaskParty
            | VerbittoError::PartyCannotVote
            | VerbittoError::NotProfileOwner
            | VerbittoError::InsufficientReputation
            | VerbittoError::NotPlatformAuthority => ErrorKind::Authorization,
            VerbittoError::ArithmeticOverflow => ErrorKind::Arithmetic,
            VerbittoError::TaskExpired
            | VerbittoError::DeadlineNotReached
            | VerbittoError::VotingPeriodEnded
            | VerbittoError::VotingPeriodNotEnded => ErrorKind::Timing,
            VerbittoError::InsufficientVotes => ErrorKind::Quorum,
        }
    }
}

/// Every way in which an operation can be refused.
#[derive(Clone, Copy, Debug, PartialEq, Eq, Structural)]
pub enum EscrowError {
    /// A rule of the marketplace refused the operation.
    Rule(VerbittoError),
    /// A record was to be created where one already exists.
    RecordExists,
    /// A record handed in belongs to another identity or record than the one
    /// the operation is about.
    RecordMismatch,
    /// The transaction clock could not be read.
    ClockUnavailable,
}

impl EscrowError {
    /// The marketplace rule behind this refusal, if it is one.
    pub fn rule(&self) -> (rule: Option<VerbittoError>)
        ensures
            rule == match *self {
                EscrowError::Rule(e) => Some(e),
                _ => None::<VerbittoError>,
            },
    {
        match self {
            EscrowError::Rule(e) => Some(*e),
            _ => None,
        }
    }
}

} // verus!
