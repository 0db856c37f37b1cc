//! The time oracle: the clock of the runtime that executes the program.

use anchor_lang::prelude::{Clock, ProgramError, SolanaSysvar};
use vstd::prelude::*;

verus! {

/// `anchor_lang::prelude::ProgramError`, the error with which the runtime
/// refuses a request. It is only ever told apart from success.
#[verifier::external_type_specification]
#[verifier::external_body]
pub struct ExProgramError(ProgramError);

/// Asks the runtime for the clock sysvar with `Clock::get` and hands back
/// its `unix_timestamp`.
///
/// Trusted, and nothing is claimed: the time is whatever the runtime says,
/// and where no runtime provides the sysvar the request fails.
#[verifier::external_body]
pub(crate) fn unix_timestamp() -> (now: Result<i64, ProgramError>) {
    match Clock::get() {
        Ok(clock) => Ok(clock.unix_timestamp),
        Err(e) => Err(e),
    }
}

} // verus!
