use vstd::prelude::*;

use crate::errors::TimeLockError;
use crate::events::VaultInitialized;
use crate::state::VaultState;

verus! {

/// Create the vault record for `owner`.
///
/// The two disambiguator bytes come from the account resolution that derived
/// the record and funds addresses; the handler stores them so later
/// operations can re-derive the same addresses. The unlock time must lie
/// strictly after the current logical time; it is written once here and
/// never mutated afterwards.
pub fn handler(owner: &[u8; 32], unlock_time: i64, now: i64, vault_bump: u8, state_bump: u8) -> (r: Result<(VaultState, VaultInitialized), TimeLockError>)
    ensures
        r is Ok <==> now < unlock_time,
        r matches Ok(p) ==> {
            &&& p.0.owner@ == owner@
            &&& p.0.unlock_time == unlock_time
            &&& p.0.vault_bump == vault_bump
            &&& p.0.state_bump == state_bump
            &&& p.0.initialized
            &&& p.1.owner@ == owner@
            &&& p.1.unlock_time == unlock_time
            &&& p.1.timestamp == now
        },
        r matches Err(e) ==> e == TimeLockError::InvalidUnlockTime,
{
    if !(unlock_time > now) {
        return Err(TimeLockError::InvalidUnlockTime);
    }
    let record = VaultState {
        owner: *owner,
        unlock_time,
        vault_bump,
        state_bump,
        initialized: true,
    };
    let event = VaultInitialized {
        owner: *owner,
        unlock_time,
        timestamp: now,
    };
    Ok((record, event))
}

} // verus!
