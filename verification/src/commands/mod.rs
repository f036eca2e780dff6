//! The library side of the frontend commands: input validation and the
//! pure steps of command handlers.

pub mod auth;
pub mod crypto;
pub mod input;
pub mod settings;
pub mod types;
