//! The cluster clock, as the runtime reports it.

use anchor_lang::prelude::{Clock, ProgramError, SolanaSysvar};
use vstd::prelude::*;

verus! {

/// The runtime's own error type. The rules only carry a value of it through.
#[verifier::external_type_specification]
#[verifier::external_body]
pub struct ExProgramError(ProgramError);

/// What the rules read off the cluster clock.
#[derive(Clone, Copy, Debug, PartialEq, Eq)]
pub struct ClockReading {
    /// The approximate real-world time of the current slot, in seconds.
    pub unix_timestamp: i64,
    /// The current slot.
    pub slot: u64,
}

/// Reads the cluster clock with `Clock::get`.
///
/// Trusted, and nothing is claimed of what comes back: the reading differs
/// from call to call, and the runtime may refuse it.
#[verifier::external_body]
pub(crate) fn read_clock() -> (r: Result<ClockReading, ProgramError>) {
    match Clock::get() {
        Ok(clock) => Ok(ClockReading { unix_timestamp: clock.unix_timestamp, slot: clock.slot }),
        Err(e) => Err(e),
    }
}

} // verus!
