//! The clock of the host runtime.

use vstd::prelude::*;
use anchor_lang::prelude::Clock;
use anchor_lang::prelude::ProgramError;
use anchor_lang::prelude::SolanaSysvar;

verus! {

#[verifier::external_type_specification]
#[verifier::external_body]
pub struct ExProgramError(ProgramError);

/// Calls `Clock::get` of `solana_program`, which asks the host runtime for
/// the clock sysvar, and hands on the slot it reports or the error it
/// returns. Outside a runtime that serves the sysvar the call fails. Nothing
/// is claimed of the slot.
#[verifier::external_body]
pub(crate) fn current_slot() -> (slot: Result<u64, ProgramError>) {
    match Clock::get() {
        Ok(clock) => Ok(clock.slot),
        Err(e) => Err(e),
    }
}

} // verus!
