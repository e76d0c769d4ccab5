use vstd::prelude::*;

verus! {

// Deterministic custody-address derivation.
//
// A vault uses two program-derived addresses: the record address, derived from
// the seed tag "state" and the owner key, and the funds address, derived from
// the seed tag "vault" and the record address. Derivation returns a
// disambiguator byte alongside the address; re-creating the address from the
// seeds plus that byte is how later operations prove they were handed the
// right account.

/// What `Pubkey::try_find_program_address` returns for a two-seed list:
/// the derived address and its disambiguator byte, or nothing when no
/// disambiguator yields a valid derived address.
pub uninterp spec fn found_address(seed_a: Seq<u8>, seed_b: Seq<u8>, program_id: Seq<u8>) -> Option<(Seq<u8>, u8)>;

/// What `Pubkey::create_program_address` returns for a three-seed list
/// (the third seed carries the disambiguator byte): the re-created address,
/// or nothing when these seeds give no valid derived address.
pub uninterp spec fn created_address(seed_a: Seq<u8>, seed_b: Seq<u8>, seed_c: Seq<u8>, program_id: Seq<u8>) -> Option<Seq<u8>>;

/// Seed tag for the record (vault-state) address: the bytes of "state".
pub open spec fn state_tag() -> Seq<u8> {
    seq![115u8, 116u8, 97u8, 116u8, 101u8]
}

/// Seed tag for the funds address: the bytes of "vault".
pub open spec fn vault_tag() -> Seq<u8> {
    seq![118u8, 97u8, 117u8, 108u8, 116u8]
}

/// Derivation of the record address from an owner key.
pub open spec fn record_derivation(owner: Seq<u8>, program_id: Seq<u8>) -> Option<(Seq<u8>, u8)> {
    found_address(state_tag(), owner, program_id)
}

/// Derivation of the funds address from a record address.
pub open spec fn funds_derivation(record_addr: Seq<u8>, program_id: Seq<u8>) -> Option<(Seq<u8>, u8)> {
    found_address(vault_tag(), record_addr, program_id)
}

/// The record address re-created from the owner key and the stored
/// disambiguator equals the presented one.
pub open spec fn record_address_ok(owner: Seq<u8>, state_bump: u8, record_addr: Seq<u8>, program_id: Seq<u8>) -> bool {
    created_address(state_tag(), owner, seq![state_bump], program_id) == Some(record_addr)
}

/// The funds address re-created from the record address and the stored
/// disambiguator equals the presented one.
pub open spec fn funds_address_ok(record_addr: Seq<u8>, vault_bump: u8, funds_addr: Seq<u8>, program_id: Seq<u8>) -> bool {
    created_address(vault_tag(), record_addr, seq![vault_bump], program_id) == Some(funds_addr)
}

fn state_tag_bytes() -> (r: Vec<u8>)
    ensures
        r@ == state_tag(),
{
    let mut v: Vec<u8> = Vec::new();
    v.push(115);
    v.push(116);
    v.push(97);
    v.push(116);
    v.push(101);
    proof {
        assert(v@ =~= state_tag());
    }
    v
}

fn vault_tag_bytes() -> (r: Vec<u8>)
    ensures
        r@ == vault_tag(),
{
    let mut v: Vec<u8> = Vec::new();
    v.push(118);
    v.push(97);
    v.push(117);
    v.push(108);
    v.push(116);
    proof {
        assert(v@ =~= vault_tag());
    }
    v
}

fn bump_bytes(bump: u8) -> (r: Vec<u8>)
    ensures
        r@ == seq![bump],
{
    let mut v: Vec<u8> = Vec::new();
    v.push(bump);
    proof {
        assert(v@ =~= seq![bump]);
    }
    v
}

/// Relies on `anchor_lang::prelude::Pubkey::try_find_program_address`: the
/// result is a deterministic function of the seeds and the program identity,
/// and when it returns a pair, `create_program_address` on the same seeds
/// plus the returned disambiguator byte re-creates exactly that address.
#[verifier::external_body]
fn find_program_address_2(seed_a: &[u8], seed_b: &[u8], program_id: &[u8; 32]) -> (r: Option<([u8; 32], u8)>)
    ensures
        (match r {
            Some(p) => Some((p.0@, p.1)),
            None => None,
        }) == found_address(seed_a@, seed_b@, program_id@),
        r matches Some(p) ==> created_address(seed_a@, seed_b@, seq![p.1], program_id@) == Some(p.0@),
{
    let pid = anchor_lang::prelude::Pubkey::new_from_array(*program_id);
    anchor_lang::prelude::Pubkey::try_find_program_address(&[seed_a, seed_b], &pid)
        .map(|(addr, bump)| (addr.to_bytes(), bump))
}

/// Relies on `anchor_lang::prelude::Pubkey::create_program_address`: the
/// result is a deterministic function of the seeds and the program identity;
/// an error means these seeds give no valid derived address.
#[verifier::external_body]
fn create_program_address_3(seed_a: &[u8], seed_b: &[u8], seed_c: &[u8], program_id: &[u8; 32]) -> (r: Option<[u8; 32]>)
    ensures
        (match r {
            Some(a) => Some(a@),
            None => None,
        }) == created_address(seed_a@, seed_b@, seed_c@, program_id@),
{
    let pid = anchor_lang::prelude::Pubkey::new_from_array(*program_id);
    anchor_lang::prelude::Pubkey::create_program_address(&[seed_a, seed_b, seed_c], &pid)
        .ok()
        .map(|addr| addr.to_bytes())
}

/// Find the record (vault-state) address and its disambiguator for an owner.
pub fn derive_record_address(owner: &[u8; 32], program_id: &[u8; 32]) -> (r: Option<([u8; 32], u8)>)
    ensures
        (match r {
            Some(p) => Some((p.0@, p.1)),
            None => None,
        }) == record_derivation(owner@, program_id@),
        r matches Some(p) ==> record_address_ok(owner@, p.1, p.0@, program_id@),
{
    let tag = state_tag_bytes();
    find_program_address_2(tag.as_slice(), owner.as_slice(), program_id)
}

/// Find the funds address and its disambiguator for a record address.
pub fn derive_funds_address(record_addr: &[u8; 32], program_id: &[u8; 32]) -> (r: Option<([u8; 32], u8)>)
    ensures
        (match r {
            Some(p) => Some((p.0@, p.1)),
            None => None,
        }) == funds_derivation(record_addr@, program_id@),
        r matches Some(p) ==> funds_address_ok(record_addr@, p.1, p.0@, program_id@),
{
    let tag = vault_tag_bytes();
    find_program_address_2(tag.as_slice(), record_addr.as_slice(), program_id)
}

/// Compare two 32-byte addresses.
pub fn bytes32_eq(a: &[u8; 32], b: &[u8; 32]) -> (r: bool)
    ensures
        r == (a@ == b@),
{
    let mut i: usize = 0;
    while i < 32
        invariant
            0 <= i <= 32,
            forall|j: int| 0 <= j < i ==> a@[j] == b@[j],
        decreases 32 - i,
    {
        if a[i] != b[i] {
            return false;
        }
        i += 1;
    }
    proof {
        assert(a@ =~= b@);
    }
    true
}

/// Re-create the record address from the owner key and a stored
/// disambiguator, and compare it with the presented record address.
pub fn check_record_address(owner: &[u8; 32], state_bump: u8, record_addr: &[u8; 32], program_id: &[u8; 32]) -> (r: bool)
    ensures
        r == record_address_ok(owner@, state_bump, record_addr@, program_id@),
{
    let tag = state_tag_bytes();
    let bump = bump_bytes(state_bump);
    match create_program_address_3(tag.as_slice(), owner.as_slice(), bump.as_slice(), program_id) {
        Some(addr) => bytes32_eq(&addr, record_addr),
        None => false,
    }
}

/// Re-create the funds address from the record address and a stored
/// disambiguator, and compare it with the presented funds address.
pub fn check_funds_address(record_addr: &[u8; 32], vault_bump: u8, funds_addr: &[u8; 32], program_id: &[u8; 32]) -> (r: bool)
    ensures
        r == funds_address_ok(record_addr@, vault_bump, funds_addr@, program_id@),
{
    let tag = vault_tag_bytes();
    let bump = bump_bytes(vault_bump);
    match create_program_address_3(tag.as_slice(), record_addr.as_slice(), bump.as_slice(), program_id) {
        Some(addr) => bytes32_eq(&addr, funds_addr),
        None => false,
    }
}

} // verus!
