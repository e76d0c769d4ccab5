pub mod addr;
pub mod errors;
pub mod events;
pub mod instructions;
pub mod laws;
pub mod state;
pub mod transfer;
pub mod vault;
