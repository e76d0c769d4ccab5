use vstd::prelude::*;

use crate::errors::TimeLockError;
use crate::events::VaultClosed;
use crate::instructions::{accounts_ok, check_accounts};
use crate::state::VaultState;

verus! {

/// The close decision: presented accounts first, then the emptiness check.
/// Closing never drains funds implicitly; a non-zero funds balance rejects
/// the request and the owner must withdraw first.
pub open spec fn close_decision(record: VaultState, signer: Seq<u8>, record_addr: Seq<u8>, funds_addr: Seq<u8>, program_id: Seq<u8>, funds_balance: u64) -> Result<(), TimeLockError> {
    if !accounts_ok(record, signer, record_addr, funds_addr, program_id) {
        Err(TimeLockError::Unauthorized)
    } else if funds_balance != 0 {
        Err(TimeLockError::VaultNotEmpty)
    } else {
        Ok(())
    }
}

/// Accept or reject destroying the vault record.
///
/// On acceptance the record is to be destroyed and its reserved ledger
/// space refunded to the owner; the funds account is only read for the
/// emptiness check, never written.
pub fn handler(record: &VaultState, signer: &[u8; 32], record_addr: &[u8; 32], funds_addr: &[u8; 32], program_id: &[u8; 32], funds_balance: u64, now: i64) -> (r: Result<VaultClosed, TimeLockError>)
    ensures
        r is Ok <==> close_decision(*record, signer@, record_addr@, funds_addr@, program_id@, funds_balance) is Ok,
        r matches Err(e) ==> close_decision(*record, signer@, record_addr@, funds_addr@, program_id@, funds_balance) == Err::<(), TimeLockError>(e),
        r matches Ok(ev) ==> ev.owner@ == record.owner@ && ev.timestamp == now,
{
    if !check_accounts(record, signer, record_addr, funds_addr, program_id) {
        return Err(TimeLockError::Unauthorized);
    }
    if funds_balance != 0 {
        return Err(TimeLockError::VaultNotEmpty);
    }
    Ok(VaultClosed {
        owner: record.owner,
        timestamp: now,
    })
}

} // verus!
