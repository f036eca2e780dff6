//! Random values from the operating system's generator.

use vstd::prelude::*;
use vstd::string::*;
use crate::error::KestrelError;
use crate::crypto::cipher::{Nonce, NONCE_SIZE};
use crate::crypto::kdf::{with_detail, Salt};

verus! {

/// The error type of the random number generator crate.
#[verifier::external_type_specification]
#[verifier::external_body]
pub struct ExRandError(rand::Error);

/// Fills `buf` from the operating system's CSPRNG (`OsRng::try_fill_bytes`).
///
/// The bytes are random, so nothing is claimed of them; only that the
/// buffer keeps its length. The call may fail when the system generator fails.
#[verifier::external_body]
fn os_fill_bytes(buf: &mut [u8]) -> (r: Result<(), rand::Error>)
    ensures
        final(buf)@.len() == old(buf)@.len(),
{
    rand::RngCore::try_fill_bytes(&mut rand::rngs::OsRng, buf)
}

/// The text of a generator error (its `Display`).
#[verifier::external_body]
fn rng_error_text(e: &rand::Error) -> String {
    format!("{e}")
}

/// Fills a buffer with cryptographically secure random bytes.
///
/// Fails with `Crypto` when the system generator fails; the buffer keeps
/// its length either way.
pub fn random_bytes(buf: &mut [u8]) -> (r: Result<(), KestrelError>)
    ensures
        final(buf)@.len() == old(buf)@.len(),
        r matches Err(e) ==> e is Crypto,
{
    match os_fill_bytes(buf) {
        Ok(()) => Ok(()),
        Err(e) => Err(KestrelError::Crypto(with_detail("RNG failure", rng_error_text(&e)))),
    }
}

/// A fresh random salt for key derivation.
pub fn random_salt() -> (r: Result<Salt, KestrelError>)
    ensures
        r matches Err(e) ==> e is Crypto,
{
    Salt::generate()
}

/// A fresh random 96-bit nonce for AES-256-GCM.
pub fn random_nonce() -> (r: Result<Nonce, KestrelError>)
    ensures
        r matches Err(e) ==> e is Crypto,
{
    let mut bytes = [0u8; NONCE_SIZE];
    random_bytes(&mut bytes)?;
    Ok(Nonce(bytes))
}

/// A vector of `len` random bytes.
pub fn random_vec(len: usize) -> (r: Result<Vec<u8>, KestrelError>)
    ensures
        r matches Ok(v) ==> v@.len() == len,
        r matches Err(e) ==> e is Crypto,
{
    let mut buf = vec![0u8; len];
    random_bytes(buf.as_mut_slice())?;
    Ok(buf)
}

/// Sets the RFC 4122 version (4) and variant (10xx) bits of sixteen bytes.
pub open spec fn uuid_v4_bytes(b: Seq<u8>) -> Seq<u8> {
    b.update(6, (b[6] & 0x0f) | 0x40).update(8, (b[8] & 0x3f) | 0x80)
}

/// Marks sixteen random bytes as a version-4, variant-1 UUID; all other
/// bits are kept.
pub fn mark_uuid_v4(bytes: [u8; 16]) -> (r: [u8; 16])
    ensures
        r@ == uuid_v4_bytes(bytes@),
        r@[6] >> 4 == 4,
        r@[8] >> 6 == 2,
{
    let mut b = bytes;
    let b6 = b[6];
    let b8 = b[8];
    b[6] = (b6 & 0x0f) | 0x40;
    b[8] = (b8 & 0x3f) | 0x80;
    assert(((b6 & 0x0f) | 0x40) >> 4 == 4) by (bit_vector);
    assert(((b8 & 0x3f) | 0x80) >> 6 == 2) by (bit_vector);
    assert(b@ =~= uuid_v4_bytes(bytes@));
    b
}

/// The UUID whose sixteen bytes, in order, are `bytes`
/// (`Uuid::from_bytes`, a function of the bytes alone).
pub uninterp spec fn uuid_with_bytes(bytes: Seq<u8>) -> uuid::Uuid;

/// Builds a UUID from its sixteen bytes (`Uuid::from_bytes`).
///
/// The result is named `uuid_with_bytes` of the bytes; nothing more is
/// stated of the opaque value.
#[verifier::external_body]
fn uuid_from_bytes(bytes: [u8; 16]) -> (u: uuid::Uuid)
    ensures
        u == uuid_with_bytes(bytes@),
{
    uuid::Uuid::from_bytes(bytes)
}

/// The UUID type of the `uuid` crate.
#[verifier::external_type_specification]
#[verifier::external_body]
pub struct ExUuid(uuid::Uuid);

/// The hyphenated lower-case text of a UUID (`Uuid::to_string`, a function
/// of the UUID alone).
pub uninterp spec fn uuid_string(u: uuid::Uuid) -> Seq<char>;

/// The hyphenated lower-case text of a UUID (`Uuid::to_string`).
///
/// The text is named `uuid_string` of the UUID; nothing more is stated.
#[verifier::external_body]
pub(crate) fn uuid_to_string(u: &uuid::Uuid) -> (s: String)
    ensures
        s@ == uuid_string(*u),
{
    u.to_string()
}

/// A random version-4 UUID drawn from the system generator: sixteen
/// random bytes with the version and variant bits set.
pub fn random_uuid() -> (r: Result<uuid::Uuid, KestrelError>)
    ensures
        r matches Ok(u) ==> exists|raw: Seq<u8>| raw.len() == 16 && u == #[trigger] uuid_with_bytes(uuid_v4_bytes(raw)),
        r matches Err(e) ==> e is Crypto,
{
    let mut bytes = [0u8; 16];
    random_bytes(&mut bytes)?;
    let marked = mark_uuid_v4(bytes);
    let u = uuid_from_bytes(marked);
    assert(u == uuid_with_bytes(uuid_v4_bytes(bytes@)));
    Ok(u)
}

} // verus!
