//! The ledger's clock.

use solana_program::clock::Clock;
use solana_program::sysvar::Sysvar;
use vstd::prelude::*;

verus! {

/// `solana_program`'s `Clock::get`, of its trait `Sysvar`: asks the runtime
/// for the clock and hands back the slot it shows, or `None` where the
/// runtime has no clock to give. The slot is the runtime's to say, so
/// nothing is claimed of it.
#[verifier::external_body]
pub(crate) fn current_slot() -> (slot: Option<u64>) {
    match Clock::get() {
        Ok(clock) => Some(clock.slot),
        Err(_) => None,
    }
}

} // verus!
