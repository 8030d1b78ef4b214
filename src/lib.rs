//! Settlement logic of a single-item English auction whose funds sit in
//! program-controlled escrow accounts.
//!
//! Every instruction is a pure function from the stored records, the clock
//! reading and the instruction's account keys to the new records and the
//! list of effects (transfers, account creation and closing) that the host
//! runtime must carry out atomically.
pub mod effects;
pub mod instructions;
pub mod keys;
pub mod laws;
pub mod state;
