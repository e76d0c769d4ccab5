use vstd::prelude::*;

verus! {

/// Who authorizes a value transfer.
///
/// A deposit is authorized by the signer spending their own funds. A
/// withdrawal drains a program-controlled address that has no private key, so
/// the program itself authorizes it by presenting the derivation seeds: the
/// record address and the stored funds disambiguator.
#[derive(Clone, Copy, Debug)]
pub enum TransferAuthority {
    SignerConsent,
    DerivationProof { record_addr: [u8; 32], vault_bump: u8 },
}

/// A single value transfer that an accepted operation instructs the ledger
/// runtime to perform.
#[derive(Clone, Copy, Debug)]
pub struct Transfer {
    pub from: [u8; 32],
    pub to: [u8; 32],
    pub lamports: u64,
    pub authority: TransferAuthority,
}

} // verus!
