//! A ledger state machine that limits how much of a token a holder may lock
//! and schedules burns of the locked supply, both driven by an administered
//! market-cap value that advances in fixed steps.
//!
//! Each operation is one transition over the records it is handed. The token
//! movements themselves (the transfer into the vault, the burn out of it) are
//! performed by the host after a successful transition, using the amounts that
//! the returned event carries; a failed transition asks for no movement.

pub mod state;
pub mod engine;
pub mod laws;

pub use state::{
    BurnTokens, ErrorCode, GlobalState, Initialize, LockTokens, TokensBurned, TokensLocked,
    UpdateCap, UserAccount,
};
pub use engine::{burn_tokens, initialize, lock_tokens, update_cap};
