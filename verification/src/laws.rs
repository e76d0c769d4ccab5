use vstd::prelude::*;

use crate::addr::funds_address_ok;
use crate::errors::TimeLockError;
use crate::instructions::accounts_ok;
use crate::instructions::close_vault::close_decision;
use crate::instructions::deposit::deposit_decision;
use crate::instructions::withdraw::withdraw_decision;
use crate::state::VaultState;
use crate::vault::VaultAccounts;

verus! {

/// A filled record slot can never be initialized again: whatever unlock time
/// and clock value are presented, the allocation collides.
pub proof fn lemma_initialize_only_once(v: VaultAccounts, unlock_time: i64, now: i64)
    requires
        v.record is Some,
    ensures
        !v.init_allowed(unlock_time, now),
{
}

/// Deposit window: the decision passes only strictly before the unlock time,
/// and at or after the unlock time a deposit on otherwise valid accounts is
/// rejected as expired.
pub proof fn lemma_deposit_window(record: VaultState, signer: Seq<u8>, record_addr: Seq<u8>, funds_addr: Seq<u8>, program_id: Seq<u8>, now: i64)
    ensures
        deposit_decision(record, signer, record_addr, funds_addr, program_id, now) is Ok ==> now < record.unlock_time,
        accounts_ok(record, signer, record_addr, funds_addr, program_id) && record.initialized && now
            >= record.unlock_time ==> deposit_decision(record, signer, record_addr, funds_addr, program_id, now)
            == Err::<(), TimeLockError>(TimeLockError::VaultExpired),
{
}

/// Withdraw window: the decision passes only at or after the unlock time,
/// and strictly before it a withdrawal on otherwise valid accounts is
/// rejected as still locked.
pub proof fn lemma_withdraw_window(record: VaultState, signer: Seq<u8>, record_addr: Seq<u8>, funds_addr: Seq<u8>, program_id: Seq<u8>, now: i64)
    ensures
        withdraw_decision(record, signer, record_addr, funds_addr, program_id, now) is Ok ==> now
            >= record.unlock_time,
        accounts_ok(record, signer, record_addr, funds_addr, program_id) && record.initialized && now
            < record.unlock_time ==> withdraw_decision(record, signer, record_addr, funds_addr, program_id, now)
            == Err::<(), TimeLockError>(TimeLockError::VaultStillLocked),
{
}

/// At any one instant the deposit and withdraw windows never overlap.
pub proof fn lemma_windows_exclusive(record: VaultState, signer: Seq<u8>, record_addr: Seq<u8>, funds_addr: Seq<u8>, program_id: Seq<u8>, now: i64)
    ensures
        !(deposit_decision(record, signer, record_addr, funds_addr, program_id, now) is Ok
            && withdraw_decision(record, signer, record_addr, funds_addr, program_id, now) is Ok),
{
}

/// Close passes only on an exactly empty funds account; a funded vault on
/// otherwise valid accounts is rejected as not empty.
pub proof fn lemma_close_only_empty(record: VaultState, signer: Seq<u8>, record_addr: Seq<u8>, funds_addr: Seq<u8>, program_id: Seq<u8>, funds_balance: u64)
    ensures
        close_decision(record, signer, record_addr, funds_addr, program_id, funds_balance) is Ok ==> funds_balance
            == 0,
        accounts_ok(record, signer, record_addr, funds_addr, program_id) && funds_balance > 0 ==> close_decision(
            record,
            signer,
            record_addr,
            funds_addr,
            program_id,
            funds_balance,
        ) == Err::<(), TimeLockError>(TimeLockError::VaultNotEmpty),
{
}

/// A presented funds address that does not re-derive from the record address
/// and the stored disambiguator is rejected as unauthorized by deposit,
/// withdraw and close alike.
pub proof fn lemma_wrong_funds_address_rejected(record: VaultState, signer: Seq<u8>, record_addr: Seq<u8>, funds_addr: Seq<u8>, program_id: Seq<u8>, funds_balance: u64, now: i64)
    requires
        !funds_address_ok(record_addr, record.vault_bump, funds_addr, program_id),
    ensures
        deposit_decision(record, signer, record_addr, funds_addr, program_id, now) == Err::<(), TimeLockError>(
            TimeLockError::Unauthorized,
        ),
        withdraw_decision(record, signer, record_addr, funds_addr, program_id, now) == Err::<(), TimeLockError>(
            TimeLockError::Unauthorized,
        ),
        close_decision(record, signer, record_addr, funds_addr, program_id, funds_balance) == Err::<
            (),
            TimeLockError,
        >(TimeLockError::Unauthorized),
{
}

/// A signer other than the record's owner is rejected as unauthorized by
/// deposit, withdraw and close alike.
pub proof fn lemma_foreign_signer_rejected(record: VaultState, signer: Seq<u8>, record_addr: Seq<u8>, funds_addr: Seq<u8>, program_id: Seq<u8>, funds_balance: u64, now: i64)
    requires
        record.owner@ != signer,
    ensures
        deposit_decision(record, signer, record_addr, funds_addr, program_id, now) == Err::<(), TimeLockError>(
            TimeLockError::Unauthorized,
        ),
        withdraw_decision(record, signer, record_addr, funds_addr, program_id, now) == Err::<(), TimeLockError>(
            TimeLockError::Unauthorized,
        ),
        close_decision(record, signer, record_addr, funds_addr, program_id, funds_balance) == Err::<
            (),
            TimeLockError,
        >(TimeLockError::Unauthorized),
{
}

/// A well-formed, filled vault accepts its own stored accounts: presenting
/// the owner as signer together with the stored funds address passes the
/// shared account validation.
pub proof fn lemma_own_accounts_accepted(v: VaultAccounts, rec: VaultState)
    requires
        v.wf(),
        v.record == Some(rec),
    ensures
        accounts_ok(rec, v.owner@, v.record_addr@, v.funds_addr@, v.program_id@),
{
}

} // verus!
