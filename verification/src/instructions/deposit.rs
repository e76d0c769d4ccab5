use vstd::prelude::*;

use crate::errors::TimeLockError;
use crate::events::Deposited;
use crate::instructions::{accounts_ok, check_accounts};
use crate::state::VaultState;
use crate::transfer::{Transfer, TransferAuthority};

verus! {

/// The deposit decision, in validation order: presented accounts first, then
/// the initialized guard, then the temporal window. A deposit is accepted
/// only strictly before the unlock time; at or after it the vault has
/// expired for deposits.
pub open spec fn deposit_decision(record: VaultState, signer: Seq<u8>, record_addr: Seq<u8>, funds_addr: Seq<u8>, program_id: Seq<u8>, now: i64) -> Result<(), TimeLockError> {
    if !accounts_ok(record, signer, record_addr, funds_addr, program_id) {
        Err(TimeLockError::Unauthorized)
    } else if !record.initialized {
        Err(TimeLockError::VaultNotInitialized)
    } else if now >= record.unlock_time {
        Err(TimeLockError::VaultExpired)
    } else {
        Ok(())
    }
}

/// Accept or reject a deposit of `amount` into the presented funds account.
///
/// On acceptance the handler instructs one transfer of `amount` from the
/// signer to the funds address, spent under the signer's own consent, and
/// emits the deposit event.
pub fn handler(record: &VaultState, signer: &[u8; 32], record_addr: &[u8; 32], funds_addr: &[u8; 32], program_id: &[u8; 32], amount: u64, now: i64) -> (r: Result<(Transfer, Deposited), TimeLockError>)
    ensures
        r is Ok <==> deposit_decision(*record, signer@, record_addr@, funds_addr@, program_id@, now) is Ok,
        r matches Err(e) ==> deposit_decision(*record, signer@, record_addr@, funds_addr@, program_id@, now) == Err::<(), TimeLockError>(e),
        r matches Ok(p) ==> {
            &&& p.0.from@ == signer@
            &&& p.0.to@ == funds_addr@
            &&& p.0.lamports == amount
            &&& p.0.authority is SignerConsent
            &&& p.1.owner@ == record.owner@
            &&& p.1.amount == amount
            &&& p.1.timestamp == now
        },
{
    if !check_accounts(record, signer, record_addr, funds_addr, program_id) {
        return Err(TimeLockError::Unauthorized);
    }
    if !record.initialized {
        return Err(TimeLockError::VaultNotInitialized);
    }
    if !(now < record.unlock_time) {
        return Err(TimeLockError::VaultExpired);
    }
    let transfer = Transfer {
        from: *signer,
        to: *funds_addr,
        lamports: amount,
        authority: TransferAuthority::SignerConsent,
    };
    let event = Deposited {
        owner: record.owner,
        amount,
        timestamp: now,
    };
    Ok((transfer, event))
}

} // verus!
