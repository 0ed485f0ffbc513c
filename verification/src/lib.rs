//! Escrow and arbitration rules of a task marketplace.
//!
//! A creator deposits a bounty with a task; an agent claims the task, does the
//! work and submits it; the creator approves, which releases the bounty less a
//! platform fee, or rejects. A conflict goes to a dispute that third-party
//! arbitrators decide by majority vote.
//!
//! Every operation is a function from the records it touches, the caller and
//! the time to the changed records, the value that leaves the task's held
//! balance and the event to publish. An operation that is refused leaves
//! every record as it was.
//!
//! An operation that depends on the time comes twice: under its own name it
//! reads the transaction clock, so that no caller can forge the time; under
//! its name with `_at` it takes the time as an argument and says exactly what
//! it does at that time.
//!
//! - [`identity`]: the public keys that name callers and records.
//! - [`state`]: the records and the task lifecycle.
//! - [`contexts`]: what each operation works on.
//! - [`instructions`]: the operations, each with the exact conditions of its
//!   refusal and the records, payout and event of its success.
//! - [`escrow`]: fee, split, majority and payout arithmetic.
//! - [`events`]: what the operations publish.
//! - [`errors`]: the refusals.
//! - [`clock`]: the transaction clock.
//! - [`laws`]: what holds of the operations together.

pub mod identity;
pub mod errors;
pub mod state;
pub mod events;
pub mod contexts;
pub mod escrow;
pub mod clock;
pub mod instructions;
pub mod laws;
