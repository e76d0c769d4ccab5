use vstd::prelude::*;

verus! {

/// Emitted once when a vault record is created.
#[derive(Clone, Copy, Debug)]
pub struct VaultInitialized {
    pub owner: [u8; 32],
    pub unlock_time: i64,
    pub timestamp: i64,
}

/// Emitted once per accepted deposit.
#[derive(Clone, Copy, Debug)]
pub struct Deposited {
    pub owner: [u8; 32],
    pub amount: u64,
    pub timestamp: i64,
}

/// Emitted once per accepted withdrawal; `amount` is the whole funds balance.
#[derive(Clone, Copy, Debug)]
pub struct Withdrawn {
    pub owner: [u8; 32],
    pub amount: u64,
    pub timestamp: i64,
}

/// Emitted once when a vault record is destroyed.
#[derive(Clone, Copy, Debug)]
pub struct VaultClosed {
    pub owner: [u8; 32],
    pub timestamp: i64,
}

} // verus!
