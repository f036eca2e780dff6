//! Vault entries, folders, search queries, and what the vault service
//! stores for entries and secure notes.

pub mod entry;
pub mod folder;
pub mod search;
pub mod service;
