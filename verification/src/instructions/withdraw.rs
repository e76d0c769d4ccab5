use vstd::prelude::*;

use crate::errors::TimeLockError;
use crate::events::Withdrawn;
use crate::instructions::{accounts_ok, check_accounts};
use crate::state::VaultState;
use crate::transfer::{Transfer, TransferAuthority};

verus! {

/// The withdraw decision, in validation order: presented accounts first,
/// then the initialized guard, then the temporal window. A withdrawal is
/// accepted only at or after the unlock time.
pub open spec fn withdraw_decision(record: VaultState, signer: Seq<u8>, record_addr: Seq<u8>, funds_addr: Seq<u8>, program_id: Seq<u8>, now: i64) -> Result<(), TimeLockError> {
    if !accounts_ok(record, signer, record_addr, funds_addr, program_id) {
        Err(TimeLockError::Unauthorized)
    } else if !record.initialized {
        Err(TimeLockError::VaultNotInitialized)
    } else if now < record.unlock_time {
        Err(TimeLockError::VaultStillLocked)
    } else {
        Ok(())
    }
}

/// Accept or reject a withdrawal of the whole presented funds balance.
///
/// On acceptance the handler instructs one transfer of the entire
/// `funds_balance` from the funds address back to the signer. The funds
/// address has no private key, so the transfer is authorized by the program
/// presenting proof of derivation: the record address and the stored funds
/// disambiguator. A withdrawal from an already empty funds account is
/// accepted and instructs a zero-value transfer.
pub fn handler(record: &VaultState, signer: &[u8; 32], record_addr: &[u8; 32], funds_addr: &[u8; 32], program_id: &[u8; 32], funds_balance: u64, now: i64) -> (r: Result<(Transfer, Withdrawn), TimeLockError>)
    ensures
        r is Ok <==> withdraw_decision(*record, signer@, record_addr@, funds_addr@, program_id@, now) is Ok,
        r matches Err(e) ==> withdraw_decision(*record, signer@, record_addr@, funds_addr@, program_id@, now) == Err::<(), TimeLockError>(e),
        r matches Ok(p) ==> {
            &&& p.0.from@ == funds_addr@
            &&& p.0.to@ == signer@
            &&& p.0.lamports == funds_balance
            &&& p.0.authority matches TransferAuthority::DerivationProof { record_addr: ra, vault_bump: vb }
                && ra@ == record_addr@ && vb == record.vault_bump
            &&& p.1.owner@ == record.owner@
            &&& p.1.amount == funds_balance
            &&& p.1.timestamp == now
        },
{
    if !check_accounts(record, signer, record_addr, funds_addr, program_id) {
        return Err(TimeLockError::Unauthorized);
    }
    if !record.initialized {
        return Err(TimeLockError::VaultNotInitialized);
    }
    if !(now >= record.unlock_time) {
        return Err(TimeLockError::VaultStillLocked);
    }
    let transfer = Transfer {
        from: *funds_addr,
        to: *signer,
        lamports: funds_balance,
        authority: TransferAuthority::DerivationProof {
            record_addr: *record_addr,
            vault_bump: record.vault_bump,
        },
    };
    let event = Withdrawn {
        owner: record.owner,
        amount: funds_balance,
        timestamp: now,
    };
    Ok((transfer, event))
}

} // verus!
