//! Proof-of-History entries: the hash chain that links them and the checks
//! that a sequence of entries must pass.
pub mod hash;
pub mod transaction;
pub mod poh;
pub mod entry;
pub mod state;
pub mod lanes;
pub mod ticks;
pub mod verify;
