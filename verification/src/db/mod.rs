//! Database bookkeeping that does not touch the database itself: the
//! schema and its migrations, pagination, key formatting for SQLCipher,
//! statistics, backup checks and the row types exchanged with the
//! repositories.

pub mod audit_event_repo;
pub mod backup;
pub mod connection;
pub mod migrations;
pub mod repository;
pub mod stats;
pub mod vault_entry_repo;
pub mod vault_meta_repo;
