use vstd::prelude::*;

pub mod close_vault;
pub mod deposit;
pub mod initialize;
pub mod withdraw;

use crate::addr::{check_funds_address, check_record_address, funds_address_ok, record_address_ok};
use crate::addr::bytes32_eq;
use crate::state::VaultState;

verus! {

/// Account validation shared by deposit, withdraw and close: the presented
/// record address re-derives from the signer key and the stored record
/// disambiguator, the record's owner is the signer, and the presented funds
/// address re-derives from the record address and the stored funds
/// disambiguator.
pub open spec fn accounts_ok(record: VaultState, signer: Seq<u8>, record_addr: Seq<u8>, funds_addr: Seq<u8>, program_id: Seq<u8>) -> bool {
    &&& record_address_ok(signer, record.state_bump, record_addr, program_id)
    &&& record.owner@ == signer
    &&& funds_address_ok(record_addr, record.vault_bump, funds_addr, program_id)
}

/// Run the shared account validation on presented accounts.
pub fn check_accounts(record: &VaultState, signer: &[u8; 32], record_addr: &[u8; 32], funds_addr: &[u8; 32], program_id: &[u8; 32]) -> (r: bool)
    ensures
        r == accounts_ok(*record, signer@, record_addr@, funds_addr@, program_id@),
{
    let record_ok = check_record_address(signer, record.state_bump, record_addr, program_id);
    let owner_ok = bytes32_eq(&record.owner, signer);
    let funds_ok = check_funds_address(record_addr, record.vault_bump, funds_addr, program_id);
    record_ok && owner_ok && funds_ok
}

} // verus!
