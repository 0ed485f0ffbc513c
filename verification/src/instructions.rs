//! The operations of the marketplace.

pub mod agent;
pub mod dispute;
pub mod platform;
pub mod task;
pub mod template;

pub use agent::{register_agent, register_agent_at, update_agent_skills};
pub use dispute::{
    cast_vote, cast_vote_at, open_dispute, open_dispute_at, resolve_dispute, resolve_dispute_at,
};
pub use platform::{initialize_platform, pause_platform, resume_platform, update_platform};
pub use task::{
    approve_and_settle, approve_and_settle_at, cancel_task, claim_task, claim_task_at,
    create_task, create_task_at, create_task_from_template, create_task_from_template_at,
    expire_task, expire_task_at, reject_submission, submit_deliverable,
};
pub use template::{create_template, deactivate_template};
