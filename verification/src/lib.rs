//! Verified core of the Senshi fantasy validator league program.
//!
//! Players stake into per-validator seasons; a season moves through
//! `Open -> Locked -> Scoring -> Settled`.  This crate holds the program's
//! rules: instruction decoding, the byte layouts of the program's accounts,
//! program-derived addresses, and one processor per instruction that turns
//! the accounts it is given into new account data and the cross-program
//! invocations the runtime must perform.

pub mod codec;
pub mod error;
pub mod pda;
pub mod state;
pub mod processor;
pub mod instruction;
pub mod laws;
pub mod instruction_laws;
