//! Cryptographic building blocks.
//!
//! - `cipher`: AES-256-GCM authenticated encryption
//! - `envelope`: the versioned binary envelope with AAD binding
//! - `kdf`: Argon2id key derivation
//! - `kdf_params`: stored, versioned KDF parameters
//! - `key_management`: the KEK/DEK hierarchy (wrapping the data key) and
//!   shares of a split key
//! - `random`: secure random values
//! - `subkeys`: HKDF-SHA256 purpose-bound sub-keys

pub mod cipher;
pub mod envelope;
pub mod kdf;
pub mod key_management;
pub mod kdf_params;
pub mod random;
pub mod subkeys;
