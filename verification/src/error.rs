//! Error type shared by the whole library.

use vstd::prelude::*;

verus! {

/// Errors produced by vault operations.
///
/// Each variant carries a human-readable message. The variant tells the
/// caller which subsystem rejected the request.
#[derive(Debug, Clone, PartialEq, Eq)]
pub enum KestrelError {
    /// A cryptographic operation failed or its input was malformed.
    Crypto(String),
    /// Input validation failed.
    Validation(String),
    /// The operation is not allowed in the current state.
    Unauthorized(String),
    /// Configuration could not be loaded or saved.
    Config(String),
    /// A database operation failed.
    Database(String),
    /// A vault-level operation failed (e.g. entity not found).
    Vault(String),
    /// The audit log could not be written or read.
    Audit(String),
    /// A scanner operation failed.
    Scanner(String),
    /// An I/O operation failed.
    Io(String),
    /// Serialization or deserialization failed.
    Serialization(String),
}

impl KestrelError {
    /// The message carried by the error.
    pub open spec fn message(self) -> Seq<char> {
        match self {
            KestrelError::Crypto(m) => m@,
            KestrelError::Validation(m) => m@,
            KestrelError::Unauthorized(m) => m@,
            KestrelError::Config(m) => m@,
            KestrelError::Database(m) => m@,
            KestrelError::Vault(m) => m@,
            KestrelError::Audit(m) => m@,
            KestrelError::Scanner(m) => m@,
            KestrelError::Io(m) => m@,
            KestrelError::Serialization(m) => m@,
        }
    }
}

/// Result type used throughout the library.
pub type KestrelResult<T> = Result<T, KestrelError>;

} // verus!
