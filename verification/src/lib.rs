//! A crowdfunding program: fundraisers with a goal and a deadline, donations
//! into a vault, withdrawal by the creator, and refunds of abandoned campaigns.
//!
//! The library holds the program's rules as functions over plain account
//! values; the runtime around it reads the accounts and the clock, performs the
//! lamport transfers that the rules ask for, and writes the accounts back.
pub mod state;
pub mod constants;
pub mod errors;
pub mod instructions;
pub mod lifecycle;
pub mod pda;
