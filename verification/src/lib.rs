//! KESTREL Vault core library.
//!
//! A local-first password vault: lifecycle state machine, brute-force
//! protection (lockout and rate limiting), the encrypted envelope format,
//! key derivation parameters, configuration clamping, input validation,
//! password analysis and database bookkeeping helpers.
//!
//! Every function in this crate carries a contract that Verus proves; the
//! few calls into cryptographic and clock crates go through small trusted
//! wrappers whose contracts state what those crates document.

pub mod audit;
pub mod commands;
pub mod config;
pub mod crypto;
pub mod db;
pub mod error;
pub mod text;
pub mod time;
pub mod scanner;
pub mod security;
pub mod vault;
