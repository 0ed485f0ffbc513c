//! The transaction clock.
//!
//! Time is read from the clock of the ledger runtime, once per operation, and
//! is never taken from the caller. Outside a running transaction there is no
//! clock to read.

use vstd::prelude::*;
use anchor_lang::prelude::{Clock, ProgramError};
use anchor_lang::solana_program::sysvar::Sysvar;
use crate::errors::EscrowError;

verus! {

/// The runtime's error type, as `Clock::get` returns it. Nothing is known
/// of its values.
#[verifier::external_type_specification]
#[verifier::external_body]
pub struct ExProgramError(ProgramError);

/// Calls `Clock::get` of `anchor_lang` (the `get` of the `Sysvar` trait, for
/// the clock) and hands back the Unix time it shows, or its error. Nothing is
/// claimed of the result: the time is whatever the runtime says, and the read
/// fails wherever no transaction is running.
#[verifier::external_body]
fn read_unix_timestamp() -> Result<i64, ProgramError> {
    Clock::get().map(|clock| clock.unix_timestamp)
}

/// The time of the running transaction in seconds since the Unix epoch, or
/// `ClockUnavailable` where the clock cannot be read.
pub fn transaction_time() -> (now: Result<i64, EscrowError>)
    ensures
        now matches Err(e) ==> e == EscrowError::ClockUnavailable,
{
    time_of(read_unix_timestamp())
}

/// What a reading of the clock gives the operations: the time that a
/// successful reading shows, unchanged, and `ClockUnavailable` for a reading
/// that failed, whatever its error.
pub fn time_of(reading: Result<i64, ProgramError>) -> (now: Result<i64, EscrowError>)
    ensures
        reading matches Ok(shown) ==> now == Ok::<i64, EscrowError>(shown),
        reading is Err ==> now == Err::<i64, EscrowError>(EscrowError::ClockUnavailable),
{
    match reading {
        Ok(shown) => Ok(shown),
        Err(_) => Err(EscrowError::ClockUnavailable),
    }
}

} // verus!
