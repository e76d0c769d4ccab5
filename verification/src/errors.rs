use vstd::prelude::*;

verus! {

/// Rejection reasons surfaced by the vault operations.
#[derive(Clone, Copy, PartialEq, Eq, Structural, Debug)]
pub enum TimeLockError {
    Unauthorized,
    VaultNotInitialized,
    VaultStillLocked,
    VaultExpired,
    InvalidUnlockTime,
    VaultNotEmpty,
    Overflow,
}

/// Rejections at the ledger level, around the program logic proper: the
/// allocation primitive refuses a record address that is already in use, and
/// derivation can (in theory) find no viable disambiguator byte.
#[derive(Clone, Copy, PartialEq, Eq, Structural, Debug)]
pub enum LedgerError {
    AccountInUse,
    NoViableAddress,
    Program(TimeLockError),
}

} // verus!
