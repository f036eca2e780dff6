//! The key hierarchy: the key derived from the master password (the key
//! encryption key, KEK) only wraps a random data encryption key (DEK), and
//! the DEK protects the vault's data. Changing the master password re-wraps
//! the same DEK under the new KEK, so no data needs re-encrypting.
//!
//! A wrapped DEK is an envelope bound to the context `vault:dek`.
//!
//! Also: shares of a split key.

use vstd::prelude::*;
use vstd::string::*;
use crate::crypto::envelope::{
    aad_bytes, open_envelope, open_spec, parse_envelope, seal_envelope, stores_sealed, AadContext, EncryptedEnvelope,
};
use crate::crypto::kdf::DerivedKey;
use crate::crypto::random::random_bytes;
use crate::error::{KestrelError, KestrelResult};

verus! {

/// The DEK a wrapped DEK holds under a KEK: what the envelope opens to,
/// when it opens to a key of 32 bytes.
pub open spec fn unwrapped_dek(kek: Seq<u8>, wrapped: EncryptedEnvelope) -> Option<Seq<u8>> {
    match open_spec(kek, wrapped.nonce_bytes(), wrapped.ct(), wrapped.aad().bytes()) {
        Some(p) => if p.len() == 32 {
            Some(p)
        } else {
            None
        },
        None => None,
    }
}

/// A fresh random data encryption key from the system generator. Fails
/// (`Crypto`) when the generator fails.
pub fn generate_dek() -> (r: KestrelResult<DerivedKey>)
    ensures
        r matches Err(e) ==> e is Crypto,
{
    let mut bytes = [0u8; 32];
    random_bytes(&mut bytes)?;
    Ok(DerivedKey::new(bytes))
}

/// Wraps a DEK under a KEK: an envelope for `vault:dek` that opens, under
/// the KEK, to the DEK. Fails (`Crypto`) only when the random generator
/// fails.
pub fn wrap_dek(kek: &DerivedKey, dek: &DerivedKey) -> (r: KestrelResult<EncryptedEnvelope>)
    ensures
        r matches Ok(w) ==> unwrapped_dek(kek.key@, w) == Some(dek.key@),
        r matches Err(e) ==> e is Crypto,
{
    seal_envelope(kek, &dek.key, "vault", "dek")
}

/// Unwraps a DEK with a KEK: the key the envelope opens to, exactly when it
/// opens to 32 bytes; otherwise `Crypto` (a wrong KEK, or a damaged
/// envelope).
pub fn unwrap_dek(kek: &DerivedKey, wrapped: &EncryptedEnvelope) -> (r: KestrelResult<DerivedKey>)
    ensures
        match unwrapped_dek(kek.key@, *wrapped) {
            Some(d) => r matches Ok(k) && k.key@ == d,
            None => r matches Err(e) && e is Crypto,
        },
{
    let p = open_envelope(kek, wrapped)?;
    if p.len() != 32 {
        return Err(KestrelError::Crypto(String::from_str("Unwrapped key has the wrong length")));
    }
    let mut bytes = [0u8; 32];
    let mut i: usize = 0;
    while i < 32
        invariant
            p@.len() == 32,
            i <= 32,
            forall|j: int| 0 <= j < i ==> bytes@[j] == p@[j],
        decreases 32 - i,
    {
        bytes[i] = p[i];
        i = i + 1;
    }
    assert(bytes@ =~= p@);
    Ok(DerivedKey::new(bytes))
}

/// Moves one stored field from an old key to a new one: the envelope is
/// read, bound to field `field_name` of entity `entity_id`, opened under
/// the old key and its plaintext sealed under the new key with the same
/// binding. Refused (`Crypto`) when the bytes are no envelope or do not open
/// under the old key for that field, and when sealing fails.
pub fn re_encrypt_field(
    old_key: &DerivedKey,
    new_key: &DerivedKey,
    entity_id: &str,
    field_name: &str,
    old_envelope_bytes: &[u8],
) -> (r: KestrelResult<Vec<u8>>)
    ensures
        match parse_envelope(old_envelope_bytes@) {
            None => r matches Err(e) && e is Crypto,
            Some((n, c)) => match open_spec(old_key.key@, n, c, aad_bytes(entity_id@, field_name@)) {
                None => r matches Err(e) && e is Crypto,
                Some(p) => {
                    &&& r matches Ok(b) ==> stores_sealed(b@, new_key.key@, p, entity_id@, field_name@)
                    &&& r matches Err(e) ==> e is Crypto
                },
            },
        },
{
    let envelope = EncryptedEnvelope::from_bytes(old_envelope_bytes, AadContext::new(entity_id, field_name))?;
    let plaintext = open_envelope(old_key, &envelope)?;
    let sealed = seal_envelope(new_key, plaintext.as_slice(), entity_id, field_name)?;
    let bytes = sealed.to_bytes();
    assert(bytes@ == sealed.serialized());
    Ok(bytes)
}

/// One share of a split key: a point of the sharing polynomial.
#[derive(Debug)]
pub struct KeyShare {
    /// The share index (x-coordinate).
    pub index: u8,
    /// The share value (y-coordinates, one per key byte).
    pub value: Vec<u8>,
}

/// Wipes a byte vector (`Zeroize::zeroize` on `Vec<u8>`): its bytes are
/// overwritten with zeros and the vector is then emptied.
#[verifier::external_body]
fn zeroize_bytes(v: &mut Vec<u8>)
    ensures
        final(v)@.len() == 0,
{
    zeroize::Zeroize::zeroize(v);
}

impl KeyShare {
    /// Wipes the share value; the index is kept.
    pub fn zeroize(&mut self)
        ensures
            final(self).index == old(self).index,
            final(self).value@.len() == 0,
    {
        zeroize_bytes(&mut self.value);
    }
}

} // verus!
