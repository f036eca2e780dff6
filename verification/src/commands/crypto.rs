//! The raw cryptographic commands. None of them is offered to the frontend:
//! key derivation happens inside unlocking, and encryption and decryption
//! inside the commands of each kind of record, so each one is refused with
//! a message that names the command to use instead.

use vstd::prelude::*;
use vstd::string::*;
use crate::error::KestrelError;

verus! {

/// Direct key derivation: always refused.
pub fn crypto_derive_key(password: String, salt: String) -> (r: Result<String, KestrelError>)
    ensures
        r matches Err(e) && e is Validation && e.message()
            == "Direct key derivation is not available via IPC. Use auth_unlock instead."@,
{
    Err(KestrelError::Validation(String::from_str("Direct key derivation is not available via IPC. Use auth_unlock instead.")))
}

/// Direct encryption: always refused.
pub fn crypto_encrypt_data(plaintext: String, context: String) -> (r: Result<String, KestrelError>)
    ensures
        r matches Err(e) && e is Validation && e.message()
            == "Direct encryption is not available via IPC. Use domain-specific commands instead."@,
{
    Err(
        KestrelError::Validation(
            String::from_str("Direct encryption is not available via IPC. Use domain-specific commands instead."),
        ),
    )
}

/// Direct decryption: always refused.
pub fn crypto_decrypt_data(ciphertext: String, context: String) -> (r: Result<String, KestrelError>)
    ensures
        r matches Err(e) && e is Validation && e.message()
            == "Direct decryption is not available via IPC. Use domain-specific commands instead."@,
{
    Err(
        KestrelError::Validation(
            String::from_str("Direct decryption is not available via IPC. Use domain-specific commands instead."),
        ),
    )
}

} // verus!
