//! Brute-force protection and the vault lifecycle.
//!
//! - `vault_state`: the lifecycle state machine (Uninitialized, Locked, Unlocked)
//! - `lockout`: progressive lockout after failed unlock attempts
//! - `rate_limit`: per-operation sliding-window rate limiting

pub mod lockout;
pub mod rate_limit;
pub mod vault_state;
