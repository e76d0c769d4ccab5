use vstd::prelude::*;

verus! {

/// Persistent metadata record for one owner's vault: the owner identity,
/// the unlock timestamp, and the two derivation disambiguator bytes.
#[derive(Clone, Copy)]
pub struct VaultState {
    pub owner: [u8; 32],
    pub unlock_time: i64,
    pub vault_bump: u8,
    pub state_bump: u8,
    pub initialized: bool,
}

/// The eight little-endian bytes of a 64-bit value.
pub open spec fn u64_le_bytes(v: u64) -> Seq<u8> {
    seq![
        (v & 0xff) as u8,
        ((v >> 8) & 0xff) as u8,
        ((v >> 16) & 0xff) as u8,
        ((v >> 24) & 0xff) as u8,
        ((v >> 32) & 0xff) as u8,
        ((v >> 40) & 0xff) as u8,
        ((v >> 48) & 0xff) as u8,
        ((v >> 56) & 0xff) as u8,
    ]
}

/// The 64-bit value read from eight little-endian bytes.
pub open spec fn u64_from_le_bytes(s: Seq<u8>) -> u64
    recommends
        s.len() == 8,
{
    (s[0] as u64) | ((s[1] as u64) << 8) | ((s[2] as u64) << 16) | ((s[3] as u64) << 24) | ((s[4] as u64) << 32) | (
    (s[5] as u64) << 40) | ((s[6] as u64) << 48) | ((s[7] as u64) << 56)
}

/// Reading back the little-endian bytes of a value gives the value.
pub proof fn lemma_u64_le_roundtrip(v: u64)
    ensures
        u64_from_le_bytes(u64_le_bytes(v)) == v,
{
    assert(((v & 0xff) as u8 as u64) | (((v >> 8) & 0xff) as u8 as u64) << 8 | (((v >> 16) & 0xff) as u8 as u64)
        << 16 | (((v >> 24) & 0xff) as u8 as u64) << 24 | (((v >> 32) & 0xff) as u8 as u64) << 32 | (((v >> 40)
        & 0xff) as u8 as u64) << 40 | (((v >> 48) & 0xff) as u8 as u64) << 48 | (((v >> 56) & 0xff) as u8 as u64)
        << 56 == v) by (bit_vector);
}

/// The number of bytes of the persisted record layout.
pub open spec fn record_len() -> int {
    43
}

impl VaultState {
    /// The persisted record layout, fixed-size with little-endian scalar
    /// fields: the owner key, the unlock time, the two disambiguator bytes,
    /// and the initialized guard as one byte.
    pub open spec fn record_bytes(self) -> Seq<u8> {
        self.owner@ + u64_le_bytes(self.unlock_time as u64) + seq![
            self.vault_bump,
            self.state_bump,
            if self.initialized {
                1u8
            } else {
                0u8
            },
        ]
    }

    /// Serialize the record into its persisted layout.
    pub fn to_bytes(&self) -> (r: Vec<u8>)
        ensures
            r@ == self.record_bytes(),
            r@.len() == record_len(),
    {
        let mut out: Vec<u8> = Vec::new();
        let mut i: usize = 0;
        while i < 32
            invariant
                0 <= i <= 32,
                out@ == self.owner@.take(i as int),
            decreases 32 - i,
        {
            out.push(self.owner[i]);
            proof {
                assert(out@ =~= self.owner@.take(i + 1 as int));
            }
            i += 1;
        }
        let bits = self.unlock_time as u64;
        out.push((bits & 0xff) as u8);
        out.push(((bits >> 8) & 0xff) as u8);
        out.push(((bits >> 16) & 0xff) as u8);
        out.push(((bits >> 24) & 0xff) as u8);
        out.push(((bits >> 32) & 0xff) as u8);
        out.push(((bits >> 40) & 0xff) as u8);
        out.push(((bits >> 48) & 0xff) as u8);
        out.push(((bits >> 56) & 0xff) as u8);
        out.push(self.vault_bump);
        out.push(self.state_bump);
        out.push(if self.initialized { 1 } else { 0 });
        proof {
            assert(self.owner@.take(32) =~= self.owner@);
            assert(out@ =~= self.record_bytes());
        }
        out
    }

    /// Deserialize a persisted record. The layout is rejected unless it has
    /// exactly the fixed length and a one-byte boolean that is zero or one.
    pub fn from_bytes(bytes: &[u8]) -> (r: Option<VaultState>)
        ensures
            r is Some <==> bytes@.len() == record_len() && (bytes@[42] == 0 || bytes@[42] == 1),
            r matches Some(rec) ==> {
                &&& rec.owner@ == bytes@.take(32)
                &&& rec.unlock_time == u64_from_le_bytes(bytes@.subrange(32, 40)) as i64
                &&& rec.vault_bump == bytes@[40]
                &&& rec.state_bump == bytes@[41]
                &&& rec.initialized == (bytes@[42] == 1)
            },
    {
        if bytes.len() != 43 {
            return None;
        }
        if bytes[42] > 1 {
            return None;
        }
        let mut owner: [u8; 32] = [0; 32];
        let mut i: usize = 0;
        while i < 32
            invariant
                0 <= i <= 32,
                bytes@.len() == 43,
                forall|j: int| 0 <= j < i ==> owner@[j] == bytes@[j],
            decreases 32 - i,
        {
            owner[i] = bytes[i];
            i += 1;
        }
        let b32 = bytes[32] as u64;
        let b33 = bytes[33] as u64;
        let b34 = bytes[34] as u64;
        let b35 = bytes[35] as u64;
        let b36 = bytes[36] as u64;
        let b37 = bytes[37] as u64;
        let b38 = bytes[38] as u64;
        let b39 = bytes[39] as u64;
        let bits = b32 | (b33 << 8) | (b34 << 16) | (b35 << 24) | (b36 << 32) | (b37 << 40) | (b38 << 48) | (b39
            << 56);
        let rec = VaultState {
            owner,
            unlock_time: bits as i64,
            vault_bump: bytes[40],
            state_bump: bytes[41],
            initialized: bytes[42] == 1,
        };
        proof {
            assert(rec.owner@ =~= bytes@.take(32));
            let s = bytes@.subrange(32, 40);
            assert(s[0] == bytes@[32] && s[1] == bytes@[33] && s[2] == bytes@[34] && s[3] == bytes@[35] && s[4]
                == bytes@[36] && s[5] == bytes@[37] && s[6] == bytes@[38] && s[7] == bytes@[39]);
        }
        Some(rec)
    }
}

/// Decoding the persisted layout of a record gives back exactly the
/// record's fields: the layout loses nothing.
pub proof fn lemma_record_bytes_roundtrip(rec: VaultState)
    ensures
        rec.record_bytes().len() == record_len(),
        rec.record_bytes().take(32) == rec.owner@,
        u64_from_le_bytes(rec.record_bytes().subrange(32, 40)) as i64 == rec.unlock_time,
        rec.record_bytes()[40] == rec.vault_bump,
        rec.record_bytes()[41] == rec.state_bump,
        (rec.record_bytes()[42] == 1) == rec.initialized,
{
    let bytes = rec.record_bytes();
    assert(bytes.take(32) =~= rec.owner@);
    assert(bytes.subrange(32, 40) =~= u64_le_bytes(rec.unlock_time as u64));
    lemma_u64_le_roundtrip(rec.unlock_time as u64);
    let v = rec.unlock_time;
    assert(((v as u64) as i64) == v) by (bit_vector);
}

} // verus!
