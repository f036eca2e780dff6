//! Authenticated encryption with AES-256-GCM.
//!
//! Every encryption draws a fresh random 96-bit nonce. The ciphertext
//! carries the 16-byte GCM tag at its end.

use vstd::prelude::*;
use vstd::string::*;
use crate::error::{KestrelError, KestrelResult};
use crate::crypto::kdf::DerivedKey;
use crate::crypto::random::random_nonce;
use aes_gcm::aead::{Aead, KeyInit};

verus! {

/// Size of a GCM nonce in bytes.
pub const NONCE_SIZE: usize = 12;

/// Size of the GCM authentication tag in bytes.
pub const TAG_SIZE: usize = 16;

/// Largest plaintext (and associated data) AES-GCM accepts, in bytes.
pub const P_MAX: u64 = 68_719_476_736;

/// A 96-bit AES-GCM nonce.
#[derive(Debug, Clone, Copy, PartialEq, Eq)]
pub struct Nonce(pub [u8; 12]);

/// Ciphertext followed by its authentication tag.
#[derive(Debug, Clone, PartialEq, Eq)]
pub struct Ciphertext(pub Vec<u8>);

/// The AES-256-GCM ciphertext (with tag) of `plaintext` under `key`,
/// `nonce` and associated data `aad`.
pub uninterp spec fn aes_gcm_seal(key: Seq<u8>, nonce: Seq<u8>, plaintext: Seq<u8>, aad: Seq<u8>) -> Seq<u8>;

/// The outcome of AES-256-GCM decryption: the plaintext when the tag
/// verifies under `key`, `nonce` and `aad`, otherwise `None`.
pub uninterp spec fn aes_gcm_open(key: Seq<u8>, nonce: Seq<u8>, ciphertext: Seq<u8>, aad: Seq<u8>) -> Option<Seq<u8>>;

/// The view of an optional byte vector.
pub open spec fn opt_bytes_view(o: Option<Vec<u8>>) -> Option<Seq<u8>> {
    match o {
        Some(v) => Some(v@),
        None => None,
    }
}

/// The error type of the AEAD crate.
#[verifier::external_type_specification]
#[verifier::external_body]
pub struct ExAeadError(aes_gcm::aead::Error);

/// AES-256-GCM encryption (`Aes256Gcm::encrypt` with a payload and AAD).
///
/// As aes-gcm's source shows, it fails exactly when the plaintext or the
/// associated data exceeds `P_MAX` bytes. The ciphertext is named
/// `aes_gcm_seal`; it is the plaintext's length plus the 16-byte tag, and,
/// as for any AEAD, decrypting it with the same key, nonce and associated
/// data gives the plaintext back.
#[verifier::external_body]
fn aes256_gcm_encrypt(key: &[u8; 32], nonce: &[u8; 12], plaintext: &[u8], aad: &[u8]) -> (r: Result<
    Vec<u8>,
    aes_gcm::aead::Error,
>)
    ensures
        r is Ok <==> (plaintext@.len() <= P_MAX && aad@.len() <= P_MAX),
        r matches Ok(c) ==> {
            &&& c@ == aes_gcm_seal(key@, nonce@, plaintext@, aad@)
            &&& c@.len() == plaintext@.len() + TAG_SIZE
            &&& aes_gcm_open(key@, nonce@, c@, aad@) == Some(plaintext@)
        },
{
    let cipher = aes_gcm::Aes256Gcm::new(aes_gcm::Key::<aes_gcm::Aes256Gcm>::from_slice(key));
    cipher.encrypt(aes_gcm::Nonce::from_slice(nonce), aes_gcm::aead::Payload { msg: plaintext, aad })
}

/// AES-256-GCM decryption (`Aes256Gcm::decrypt` with a payload and AAD).
///
/// The outcome is named `aes_gcm_open`: `Ok` with the plaintext when the
/// tag verifies, an error otherwise.
#[verifier::external_body]
fn aes256_gcm_decrypt(key: &[u8; 32], nonce: &[u8; 12], ciphertext: &[u8], aad: &[u8]) -> (r: Result<
    Vec<u8>,
    aes_gcm::aead::Error,
>)
    ensures
        opt_bytes_view(r.ok()) == aes_gcm_open(key@, nonce@, ciphertext@, aad@),
{
    let cipher = aes_gcm::Aes256Gcm::new(aes_gcm::Key::<aes_gcm::Aes256Gcm>::from_slice(key));
    cipher.decrypt(aes_gcm::Nonce::from_slice(nonce), aes_gcm::aead::Payload { msg: ciphertext, aad })
}

/// Encrypts `plaintext` bound to `aad` under a fresh random nonce.
///
/// Refused (`Crypto`) when the plaintext or the associated data is longer
/// than AES-GCM accepts, or when the system random generator fails. On
/// success the returned ciphertext decrypts to the plaintext under the same
/// key, nonce and associated data.
pub fn encrypt(key: &DerivedKey, plaintext: &[u8], aad: &[u8]) -> (r: KestrelResult<(Nonce, Ciphertext)>)
    ensures
        r matches Ok((n, c)) ==> {
            &&& c.0@ == aes_gcm_seal(key.key@, n.0@, plaintext@, aad@)
            &&& c.0@.len() == plaintext@.len() + TAG_SIZE
            &&& aes_gcm_open(key.key@, n.0@, c.0@, aad@) == Some(plaintext@)
        },
        (plaintext@.len() > P_MAX || aad@.len() > P_MAX) ==> r is Err,
        r matches Err(e) ==> e is Crypto,
{
    let nonce = random_nonce()?;
    match aes256_gcm_encrypt(&key.key, &nonce.0, plaintext, aad) {
        Ok(c) => Ok((nonce, Ciphertext(c))),
        Err(_) => Err(KestrelError::Crypto(String::from_str("Encryption failed"))),
    }
}

/// Decrypts and authenticates a ciphertext.
///
/// Returns the plaintext exactly when the tag verifies under `key`,
/// `nonce` and `aad`; otherwise `Crypto` (wrong key, tampering, or wrong
/// associated data).
pub fn decrypt(key: &DerivedKey, nonce: &Nonce, ciphertext: &Ciphertext, aad: &[u8]) -> (r: KestrelResult<Vec<u8>>)
    ensures
        match r {
            Ok(p) => aes_gcm_open(key.key@, nonce.0@, ciphertext.0@, aad@) == Some(p@),
            Err(e) => aes_gcm_open(key.key@, nonce.0@, ciphertext.0@, aad@) is None && e is Crypto,
        },
{
    match aes256_gcm_decrypt(&key.key, &nonce.0, ciphertext.0.as_slice(), aad) {
        Ok(p) => Ok(p),
        Err(_) => Err(KestrelError::Crypto(String::from_str("Decryption failed: authentication tag mismatch"))),
    }
}

} // verus!
