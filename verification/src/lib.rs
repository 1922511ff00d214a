//! Custody and delegated minting for master edition tokens.
//!
//! The holder of a master edition places its token account under a
//! program-derived custody address, the program then requests numbered copies
//! from the metadata program on the holder's behalf, and custody is handed
//! back once every copy has been issued. The library decides; the caller
//! performs the cross-program invocation that each decision names.

pub mod account_info;
pub mod error;
pub mod instruction;
pub mod invoke;
pub mod processor;
pub mod programs;
pub mod pubkey;
pub mod seeds;
pub mod state;
pub mod validation;
