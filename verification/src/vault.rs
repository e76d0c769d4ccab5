use vstd::prelude::*;

use crate::addr::{derive_funds_address, derive_record_address};
use crate::addr::{funds_address_ok, funds_derivation, record_address_ok, record_derivation};
use crate::errors::{LedgerError, TimeLockError};
use crate::events::{Deposited, VaultClosed, VaultInitialized, Withdrawn};
use crate::instructions::{close_vault, deposit, initialize, withdraw};
use crate::instructions::deposit::deposit_decision;
use crate::instructions::withdraw::withdraw_decision;
use crate::instructions::close_vault::close_decision;
use crate::state::VaultState;

verus! {

/// One owner's slice of the ledger: the record slot at the derived record
/// address, the funds account balance at the derived funds address, and the
/// owner's own external balance. Different owners' slices share nothing, so
/// operations on one never read or write another.
pub struct VaultAccounts {
    pub program_id: [u8; 32],
    pub owner: [u8; 32],
    pub owner_balance: u64,
    pub record: Option<VaultState>,
    pub record_addr: [u8; 32],
    pub funds_addr: [u8; 32],
    pub funds_balance: u64,
}

/// Move `lamports` between two balances; nothing moves when the source is
/// short or the destination would overflow.
fn apply_transfer(from_balance: u64, to_balance: u64, lamports: u64) -> (r: Option<(u64, u64)>)
    ensures
        r is Some <==> lamports <= from_balance && to_balance + lamports <= u64::MAX,
        r matches Some(p) ==> p.0 == from_balance - lamports && p.1 == to_balance + lamports,
{
    if lamports > from_balance {
        return None;
    }
    if lamports > u64::MAX - to_balance {
        return None;
    }
    Some((from_balance - lamports, to_balance + lamports))
}

impl VaultAccounts {
    /// The derivation chain for this owner finds both addresses.
    pub open spec fn derivable(self) -> bool {
        &&& record_derivation(self.owner@, self.program_id@) matches Some(p)
        &&& funds_derivation(p.0, self.program_id@) is Some
    }

    /// Initialize is accepted exactly here: no record exists yet, both
    /// addresses derive, and the unlock time lies strictly in the future.
    pub open spec fn init_allowed(self, unlock_time: i64, now: i64) -> bool {
        &&& self.record is None
        &&& self.derivable()
        &&& now < unlock_time
    }

    /// Well-formedness: whenever the record slot is filled, the record
    /// belongs to this owner, carries the initialized guard, and both stored
    /// addresses are exactly the derivable ones, re-creatable from the
    /// stored disambiguator bytes.
    pub open spec fn wf(self) -> bool {
        self.record matches Some(rec) ==> {
            &&& rec.initialized
            &&& rec.owner@ == self.owner@
            &&& record_derivation(self.owner@, self.program_id@) == Some((self.record_addr@, rec.state_bump))
            &&& funds_derivation(self.record_addr@, self.program_id@) == Some((self.funds_addr@, rec.vault_bump))
            &&& record_address_ok(self.owner@, rec.state_bump, self.record_addr@, self.program_id@)
            &&& funds_address_ok(self.record_addr@, rec.vault_bump, self.funds_addr@, self.program_id@)
        }
    }

    /// A fresh slice for one owner: no record, an empty funds account, and
    /// the owner's starting balance.
    pub fn new(program_id: [u8; 32], owner: [u8; 32], owner_balance: u64) -> (v: VaultAccounts)
        ensures
            v.program_id@ == program_id@,
            v.owner@ == owner@,
            v.owner_balance == owner_balance,
            v.record is None,
            v.funds_balance == 0,
            v.wf(),
    {
        VaultAccounts {
            program_id,
            owner,
            owner_balance,
            record: None,
            record_addr: [0; 32],
            funds_addr: [0; 32],
            funds_balance: 0,
        }
    }

    /// Allocate and fill the record slot for this owner.
    ///
    /// The record address is found from the owner key, the funds address
    /// from the record address; the two disambiguator bytes are stored in
    /// the record. A slot already holding a record collides at allocation,
    /// before any program logic runs.
    pub fn initialize(&mut self, unlock_time: i64, now: i64) -> (r: Result<VaultInitialized, LedgerError>)
        ensures
            r is Ok <==> old(self).init_allowed(unlock_time, now),
            r is Err ==> *final(self) == *old(self),
            old(self).record is Some ==> r == Err::<VaultInitialized, LedgerError>(LedgerError::AccountInUse),
            old(self).record is None && !old(self).derivable() ==> r == Err::<VaultInitialized, LedgerError>(
                LedgerError::NoViableAddress,
            ),
            old(self).record is None && old(self).derivable() && now >= unlock_time ==> r == Err::<
                VaultInitialized,
                LedgerError,
            >(LedgerError::Program(TimeLockError::InvalidUnlockTime)),
            r matches Ok(ev) ==> {
                &&& final(self).record matches Some(rec) && {
                    &&& rec.owner@ == old(self).owner@
                    &&& rec.unlock_time == unlock_time
                    &&& rec.initialized
                    &&& record_derivation(old(self).owner@, old(self).program_id@) == Some(
                        (final(self).record_addr@, rec.state_bump),
                    )
                    &&& funds_derivation(final(self).record_addr@, old(self).program_id@) == Some(
                        (final(self).funds_addr@, rec.vault_bump),
                    )
                }
                &&& final(self).program_id == old(self).program_id
                &&& final(self).owner == old(self).owner
                &&& final(self).owner_balance == old(self).owner_balance
                &&& final(self).funds_balance == old(self).funds_balance
                &&& ev.owner@ == old(self).owner@
                &&& ev.unlock_time == unlock_time
                &&& ev.timestamp == now
            },
            r is Ok ==> final(self).wf(),
            old(self).wf() ==> final(self).wf(),
    {
        if self.record.is_some() {
            return Err(LedgerError::AccountInUse);
        }
        let (record_addr, state_bump) = match derive_record_address(&self.owner, &self.program_id) {
            None => {
                return Err(LedgerError::NoViableAddress);
            },
            Some(p) => p,
        };
        let (funds_addr, vault_bump) = match derive_funds_address(&record_addr, &self.program_id) {
            None => {
                return Err(LedgerError::NoViableAddress);
            },
            Some(p) => p,
        };
        match initialize::handler(&self.owner, unlock_time, now, vault_bump, state_bump) {
            Err(e) => Err(LedgerError::Program(e)),
            Ok((record, event)) => {
                self.record = Some(record);
                self.record_addr = record_addr;
                self.funds_addr = funds_addr;
                Ok(event)
            },
        }
    }

    /// Deposit `amount` from the signer into the presented funds account.
    ///
    /// The handler validates the presented accounts and the temporal window;
    /// on acceptance the instructed transfer is applied to the balances, and
    /// a shortfall or overflow there rejects the request with nothing moved.
    pub fn deposit(&mut self, signer: &[u8; 32], funds_addr: &[u8; 32], amount: u64, now: i64) -> (r: Result<
        Deposited,
        TimeLockError,
    >)
        ensures
            r is Err ==> *final(self) == *old(self),
            old(self).record is None ==> r == Err::<Deposited, TimeLockError>(TimeLockError::VaultNotInitialized),
            old(self).record matches Some(rec) ==> {
                let d = deposit_decision(rec, signer@, old(self).record_addr@, funds_addr@, old(self).program_id@, now);
                &&& d matches Err(e) ==> r == Err::<Deposited, TimeLockError>(e)
                &&& d is Ok && amount > old(self).owner_balance ==> r == Err::<Deposited, TimeLockError>(
                    TimeLockError::Overflow,
                )
                &&& d is Ok && amount <= old(self).owner_balance && old(self).funds_balance + amount > u64::MAX ==> r
                    == Err::<Deposited, TimeLockError>(TimeLockError::Overflow)
                &&& (r is Ok <==> d is Ok && amount <= old(self).owner_balance && old(self).funds_balance + amount
                    <= u64::MAX)
            },
            r matches Ok(ev) ==> old(self).record matches Some(rec) && {
                &&& final(self).record == old(self).record
                &&& final(self).record_addr == old(self).record_addr
                &&& final(self).funds_addr == old(self).funds_addr
                &&& final(self).program_id == old(self).program_id
                &&& final(self).owner == old(self).owner
                &&& final(self).owner_balance == old(self).owner_balance - amount
                &&& final(self).funds_balance == old(self).funds_balance + amount
                &&& ev.owner@ == rec.owner@
                &&& ev.amount == amount
                &&& ev.timestamp == now
            },
            old(self).wf() ==> final(self).wf(),
    {
        let record = match &self.record {
            None => {
                return Err(TimeLockError::VaultNotInitialized);
            },
            Some(rec) => *rec,
        };
        let (transfer, event) = match deposit::handler(
            &record,
            signer,
            &self.record_addr,
            funds_addr,
            &self.program_id,
            amount,
            now,
        ) {
            Err(e) => {
                return Err(e);
            },
            Ok(p) => p,
        };
        match apply_transfer(self.owner_balance, self.funds_balance, transfer.lamports) {
            None => Err(TimeLockError::Overflow),
            Some((from_balance, to_balance)) => {
                self.owner_balance = from_balance;
                self.funds_balance = to_balance;
                Ok(event)
            },
        }
    }

    /// Withdraw the entire funds balance back to the signer.
    ///
    /// On acceptance the whole funds balance moves, never a partial amount,
    /// and the funds account is left at exactly zero; withdrawing from an
    /// already empty vault is accepted as a zero-value transfer.
    pub fn withdraw(&mut self, signer: &[u8; 32], funds_addr: &[u8; 32], now: i64) -> (r: Result<
        Withdrawn,
        TimeLockError,
    >)
        ensures
            r is Err ==> *final(self) == *old(self),
            old(self).record is None ==> r == Err::<Withdrawn, TimeLockError>(TimeLockError::VaultNotInitialized),
            old(self).record matches Some(rec) ==> {
                let d = withdraw_decision(rec, signer@, old(self).record_addr@, funds_addr@, old(self).program_id@, now);
                &&& d matches Err(e) ==> r == Err::<Withdrawn, TimeLockError>(e)
                &&& d is Ok && old(self).owner_balance + old(self).funds_balance > u64::MAX ==> r == Err::<
                    Withdrawn,
                    TimeLockError,
                >(TimeLockError::Overflow)
                &&& (r is Ok <==> d is Ok && old(self).owner_balance + old(self).funds_balance <= u64::MAX)
            },
            r matches Ok(ev) ==> old(self).record matches Some(rec) && {
                &&& final(self).record == old(self).record
                &&& final(self).record_addr == old(self).record_addr
                &&& final(self).funds_addr == old(self).funds_addr
                &&& final(self).program_id == old(self).program_id
                &&& final(self).owner == old(self).owner
                &&& final(self).owner_balance == old(self).owner_balance + old(self).funds_balance
                &&& final(self).funds_balance == 0
                &&& ev.owner@ == rec.owner@
                &&& ev.amount == old(self).funds_balance
                &&& ev.timestamp == now
            },
            old(self).wf() ==> final(self).wf(),
    {
        let record = match &self.record {
            None => {
                return Err(TimeLockError::VaultNotInitialized);
            },
            Some(rec) => *rec,
        };
        let (transfer, event) = match withdraw::handler(
            &record,
            signer,
            &self.record_addr,
            funds_addr,
            &self.program_id,
            self.funds_balance,
            now,
        ) {
            Err(e) => {
                return Err(e);
            },
            Ok(p) => p,
        };
        match apply_transfer(self.funds_balance, self.owner_balance, transfer.lamports) {
            None => Err(TimeLockError::Overflow),
            Some((from_balance, to_balance)) => {
                self.funds_balance = from_balance;
                self.owner_balance = to_balance;
                Ok(event)
            },
        }
    }

    /// Destroy the record slot once the funds account is empty.
    ///
    /// Rejection leaves the record intact; acceptance empties the slot and
    /// never touches the funds balance, which the decision has already
    /// checked to be zero.
    pub fn close_vault(&mut self, signer: &[u8; 32], funds_addr: &[u8; 32], now: i64) -> (r: Result<
        VaultClosed,
        TimeLockError,
    >)
        ensures
            r is Err ==> *final(self) == *old(self),
            old(self).record is None ==> r == Err::<VaultClosed, TimeLockError>(TimeLockError::VaultNotInitialized),
            old(self).record matches Some(rec) ==> {
                let d = close_decision(
                    rec,
                    signer@,
                    old(self).record_addr@,
                    funds_addr@,
                    old(self).program_id@,
                    old(self).funds_balance,
                );
                &&& d matches Err(e) ==> r == Err::<VaultClosed, TimeLockError>(e)
                &&& (r is Ok <==> d is Ok)
            },
            r matches Ok(ev) ==> old(self).record matches Some(rec) && {
                &&& final(self).record is None
                &&& final(self).record_addr == old(self).record_addr
                &&& final(self).funds_addr == old(self).funds_addr
                &&& final(self).program_id == old(self).program_id
                &&& final(self).owner == old(self).owner
                &&& final(self).owner_balance == old(self).owner_balance
                &&& final(self).funds_balance == old(self).funds_balance
                &&& ev.owner@ == rec.owner@
                &&& ev.timestamp == now
            },
            old(self).wf() ==> final(self).wf(),
    {
        let record = match &self.record {
            None => {
                return Err(TimeLockError::VaultNotInitialized);
            },
            Some(rec) => *rec,
        };
        match close_vault::handler(
            &record,
            signer,
            &self.record_addr,
            funds_addr,
            &self.program_id,
            self.funds_balance,
            now,
        ) {
            Err(e) => Err(e),
            Ok(event) => {
                self.record = None;
                Ok(event)
            },
        }
    }
}

} // verus!
