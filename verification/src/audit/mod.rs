//! The audit trail of security-relevant events.

pub mod logger;
