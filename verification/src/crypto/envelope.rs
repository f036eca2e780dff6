//! The binary envelope stored for every encrypted field.
//!
//! ```text
//! [version: 1 byte][nonce: 12 bytes][ciphertext: N bytes][tag: 16 bytes]
//! ```
//!
//! Each envelope is bound to associated data `{entity_id}:{field_name}`, so
//! ciphertext cannot be moved to another field or another entry without the
//! authentication tag failing.

use vstd::prelude::*;
use vstd::string::*;
use crate::error::{KestrelError, KestrelResult};
use crate::crypto::cipher::{self, Ciphertext, Nonce, NONCE_SIZE, TAG_SIZE, P_MAX, aes_gcm_open};
use crate::crypto::kdf::DerivedKey;
use crate::text::push_hex;

verus! {

/// Version byte of the current envelope format.
pub const ENVELOPE_VERSION_1: u8 = 1;

/// Minimum envelope size: version (1) + nonce (12) + tag (16).
pub const MIN_ENVELOPE_SIZE: usize = 29;

/// Envelope format version.
#[derive(Debug, Clone, Copy, PartialEq, Eq, Structural)]
pub enum EnvelopeVersion {
    /// Version 1: `[version][nonce][ciphertext+tag]`.
    V1,
}

impl EnvelopeVersion {
    /// The version byte.
    pub fn as_byte(self) -> (b: u8)
        ensures
            b == ENVELOPE_VERSION_1,
    {
        match self {
            EnvelopeVersion::V1 => ENVELOPE_VERSION_1,
        }
    }

    /// Parses a version byte; unknown versions are refused with `Crypto`.
    pub fn from_byte(byte: u8) -> (r: KestrelResult<Self>)
        ensures
            r is Ok <==> byte == ENVELOPE_VERSION_1,
            r matches Ok(v) ==> v == EnvelopeVersion::V1,
            r matches Err(e) ==> e is Crypto,
    {
        if byte == ENVELOPE_VERSION_1 {
            Ok(EnvelopeVersion::V1)
        } else {
            let mut m = String::from_str("Unknown envelope version: 0x");
            push_hex(&mut m, &[byte]);
            Err(KestrelError::Crypto(m))
        }
    }
}

/// Associated data binding an envelope to an entity and a field.
#[derive(Debug)]
pub struct AadContext {
    entity_id: String,
    field_name: String,
}

impl Clone for AadContext {
    /// A copy of the context: the same entity and field.
    fn clone(&self) -> (c: Self)
        ensures
            c == *self,
    {
        AadContext { entity_id: self.entity_id.clone(), field_name: self.field_name.clone() }
    }
}

/// The associated data bytes: UTF-8 of `{entity_id}:{field_name}`.
pub open spec fn aad_bytes(entity_id: Seq<char>, field_name: Seq<char>) -> Seq<u8> {
    vstd::utf8::encode_utf8(entity_id) + seq![58u8] + vstd::utf8::encode_utf8(field_name)
}

impl AadContext {
    /// The entity identifier.
    pub closed spec fn entity(&self) -> Seq<char> {
        self.entity_id@
    }

    /// The field name.
    pub closed spec fn field(&self) -> Seq<char> {
        self.field_name@
    }

    /// The associated data this context stands for.
    pub open spec fn bytes(&self) -> Seq<u8> {
        aad_bytes(self.entity(), self.field())
    }

    /// A context for the given entity and field.
    pub fn new(entity_id: &str, field_name: &str) -> (c: Self)
        ensures
            c.entity() == entity_id@,
            c.field() == field_name@,
    {
        AadContext { entity_id: entity_id.to_owned(), field_name: field_name.to_owned() }
    }

    /// Serializes the context as `{entity_id}:{field_name}` in UTF-8.
    pub fn to_bytes(&self) -> (b: Vec<u8>)
        ensures
            b@ == self.bytes(),
    {
        let mut b: Vec<u8> = Vec::new();
        b.extend_from_slice(self.entity_id.as_str().as_bytes());
        b.push(58u8);
        b.extend_from_slice(self.field_name.as_str().as_bytes());
        assert(b@ =~= self.bytes());
        b
    }
}

/// The serialized form of an envelope.
pub open spec fn envelope_bytes(nonce: Seq<u8>, ciphertext_with_tag: Seq<u8>) -> Seq<u8> {
    seq![ENVELOPE_VERSION_1] + nonce + ciphertext_with_tag
}

/// Parsing of serialized envelopes: the nonce and ciphertext+tag, or `None`
/// when the data is too short or carries an unknown version.
pub open spec fn parse_envelope(data: Seq<u8>) -> Option<(Seq<u8>, Seq<u8>)> {
    if data.len() < MIN_ENVELOPE_SIZE || data[0] != ENVELOPE_VERSION_1 {
        None
    } else {
        Some((data.subrange(1, 1 + NONCE_SIZE as int), data.subrange(1 + NONCE_SIZE as int, data.len() as int)))
    }
}

/// A versioned, authenticated ciphertext with its associated-data context.
#[derive(Debug, Clone)]
pub struct EncryptedEnvelope {
    version: EnvelopeVersion,
    nonce: Nonce,
    ciphertext_with_tag: Vec<u8>,
    aad_context: AadContext,
}

/// Decryption of an envelope under a key: the plaintext, or `None` when
/// authentication fails.
pub open spec fn open_spec(key: Seq<u8>, nonce: Seq<u8>, ciphertext_with_tag: Seq<u8>, aad: Seq<u8>) -> Option<Seq<u8>> {
    aes_gcm_open(key, nonce, ciphertext_with_tag, aad)
}

impl EncryptedEnvelope {
    /// The nonce bytes.
    pub closed spec fn nonce_bytes(&self) -> Seq<u8> {
        self.nonce.0@
    }

    /// The ciphertext with its tag.
    pub closed spec fn ct(&self) -> Seq<u8> {
        self.ciphertext_with_tag@
    }

    /// The associated-data context.
    pub closed spec fn aad(&self) -> AadContext {
        self.aad_context
    }

    /// The serialized bytes of this envelope.
    pub open spec fn serialized(&self) -> Seq<u8> {
        envelope_bytes(self.nonce_bytes(), self.ct())
    }

    /// Builds an envelope from its parts.
    pub fn new(version: EnvelopeVersion, nonce: Nonce, ciphertext_with_tag: Vec<u8>, aad_context: AadContext) -> (e: Self)
        ensures
            e.nonce_bytes() == nonce.0@,
            e.ct() == ciphertext_with_tag@,
            e.aad() == aad_context,
    {
        EncryptedEnvelope { version, nonce, ciphertext_with_tag, aad_context }
    }

    /// The format version.
    pub fn version(&self) -> (v: EnvelopeVersion)
        ensures
            v == EnvelopeVersion::V1,
    {
        match self.version {
            EnvelopeVersion::V1 => EnvelopeVersion::V1,
        }
    }

    /// The nonce.
    pub fn nonce(&self) -> (n: &Nonce)
        ensures
            n.0@ == self.nonce_bytes(),
    {
        &self.nonce
    }

    /// The ciphertext with its authentication tag.
    pub fn ciphertext_with_tag(&self) -> (c: &[u8])
        ensures
            c@ == self.ct(),
    {
        self.ciphertext_with_tag.as_slice()
    }

    /// The associated-data context.
    pub fn aad_context(&self) -> (a: &AadContext)
        ensures
            *a == self.aad(),
    {
        &self.aad_context
    }

    /// Serializes to `[version][nonce][ciphertext+tag]`.
    pub fn to_bytes(&self) -> (b: Vec<u8>)
        ensures
            b@ == self.serialized(),
    {
        let mut buf: Vec<u8> = Vec::new();
        buf.push(self.version.as_byte());
        buf.extend_from_slice(&self.nonce.0);
        buf.extend_from_slice(self.ciphertext_with_tag.as_slice());
        assert(buf@ =~= self.serialized());
        buf
    }

    /// Parses serialized bytes and binds them to `aad_context`.
    ///
    /// Refused (`Crypto`) when the data is shorter than `MIN_ENVELOPE_SIZE`
    /// or the version byte is unknown.
    pub fn from_bytes(data: &[u8], aad_context: AadContext) -> (r: KestrelResult<Self>)
        ensures
            match parse_envelope(data@) {
                Some((n, c)) => r matches Ok(e) && e.nonce_bytes() == n && e.ct() == c && e.aad() == aad_context,
                None => r matches Err(e) && e is Crypto,
            },
    {
        if data.len() < MIN_ENVELOPE_SIZE {
            return Err(KestrelError::Crypto(String::from_str("Envelope too short")));
        }
        let version = EnvelopeVersion::from_byte(data[0])?;
        let mut nonce_bytes = [0u8; NONCE_SIZE];
        let mut i: usize = 0;
        while i < NONCE_SIZE
            invariant
                data@.len() >= MIN_ENVELOPE_SIZE,
                i <= NONCE_SIZE,
                nonce_bytes@.len() == NONCE_SIZE,
                forall|j: int| 0 <= j < i ==> nonce_bytes@[j] == data@[1 + j],
            decreases NONCE_SIZE - i,
        {
            nonce_bytes[i] = data[1 + i];
            i = i + 1;
        }
        let mut ct: Vec<u8> = Vec::new();
        let mut k: usize = 1 + NONCE_SIZE;
        while k < data.len()
            invariant
                1 + NONCE_SIZE <= k <= data@.len(),
                ct@ == data@.subrange(1 + NONCE_SIZE as int, k as int),
            decreases data@.len() - k,
        {
            ct.push(data[k]);
            k = k + 1;
            assert(ct@ =~= data@.subrange(1 + NONCE_SIZE as int, k as int));
        }
        assert(nonce_bytes@ =~= data@.subrange(1, 1 + NONCE_SIZE as int));
        Ok(EncryptedEnvelope { version, nonce: Nonce(nonce_bytes), ciphertext_with_tag: ct, aad_context })
    }
}

/// Whether `stored` is the serialized envelope of `value` sealed under `key`
/// for field `field_name` of entity `entity_id`.
pub open spec fn stores_sealed(
    stored: Seq<u8>,
    key: Seq<u8>,
    value: Seq<u8>,
    entity_id: Seq<char>,
    field_name: Seq<char>,
) -> bool {
    exists|e: EncryptedEnvelope|
        {
            &&& stored == #[trigger] e.serialized()
            &&& e.aad().entity() == entity_id
            &&& e.aad().field() == field_name
            &&& open_spec(key, e.nonce_bytes(), e.ct(), e.aad().bytes()) == Some(value)
        }
}

/// Encrypts `plaintext` for field `field_name` of entity `entity_id` under a
/// fresh nonce.
///
/// Refused (`Crypto`) when the plaintext or the associated data is longer
/// than AES-GCM accepts, or when the random generator fails. On success the
/// envelope opens, under the same key, to the plaintext.
pub fn seal_envelope(key: &DerivedKey, plaintext: &[u8], entity_id: &str, field_name: &str) -> (r: KestrelResult<
    EncryptedEnvelope,
>)
    ensures
        r matches Ok(e) ==> {
            &&& e.aad().entity() == entity_id@
            &&& e.aad().field() == field_name@
            &&& e.ct().len() == plaintext@.len() + TAG_SIZE
            &&& open_spec(key.key@, e.nonce_bytes(), e.ct(), e.aad().bytes()) == Some(plaintext@)
        },
        (plaintext@.len() > P_MAX || aad_bytes(entity_id@, field_name@).len() > P_MAX) ==> r is Err,
        r matches Err(e) ==> e is Crypto,
{
    let aad_context = AadContext::new(entity_id, field_name);
    let aad = aad_context.to_bytes();
    let (nonce, ciphertext) = cipher::encrypt(key, plaintext, aad.as_slice())?;
    Ok(EncryptedEnvelope { version: EnvelopeVersion::V1, nonce, ciphertext_with_tag: ciphertext.0, aad_context })
}

/// Decrypts an envelope, checking its tag against the bound context.
///
/// Returns the plaintext exactly when authentication succeeds; otherwise
/// `Crypto` (wrong key, tampered ciphertext, or a context that differs from
/// the one used when sealing).
pub fn open_envelope(key: &DerivedKey, envelope: &EncryptedEnvelope) -> (r: KestrelResult<Vec<u8>>)
    ensures
        match r {
            Ok(p) => open_spec(key.key@, envelope.nonce_bytes(), envelope.ct(), envelope.aad().bytes()) == Some(p@),
            Err(e) => open_spec(key.key@, envelope.nonce_bytes(), envelope.ct(), envelope.aad().bytes()) is None
                && e is Crypto,
        },
{
    let aad = envelope.aad_context.to_bytes();
    let ciphertext = Ciphertext(envelope.ciphertext_with_tag.clone());
    cipher::decrypt(key, &envelope.nonce, &ciphertext, aad.as_slice())
}

/// Parsing what was serialized gives back the same nonce and ciphertext,
/// for every envelope whose ciphertext holds at least a tag.
pub proof fn law_parse_serialize(nonce: Seq<u8>, ct: Seq<u8>)
    requires
        nonce.len() == NONCE_SIZE,
        ct.len() >= TAG_SIZE,
    ensures
        parse_envelope(envelope_bytes(nonce, ct)) == Some((nonce, ct)),
{
    let d = envelope_bytes(nonce, ct);
    assert(d.subrange(1, 1 + NONCE_SIZE as int) =~= nonce);
    assert(d.subrange(1 + NONCE_SIZE as int, d.len() as int) =~= ct);
}

/// Serializing what was parsed gives back the original bytes.
pub proof fn law_serialize_parse(data: Seq<u8>)
    requires
        parse_envelope(data) is Some,
    ensures
        parse_envelope(data) matches Some((n, c)) && envelope_bytes(n, c) == data,
{
    let (n, c) = parse_envelope(data)->0;
    assert(envelope_bytes(n, c) =~= data);
}

/// A sealed envelope, stored and loaded again with the same context, opens
/// to the plaintext it was sealed from.
pub proof fn law_seal_store_load_open(key: Seq<u8>, e_nonce: Seq<u8>, e_ct: Seq<u8>, aad: Seq<u8>, plaintext: Seq<u8>)
    requires
        e_nonce.len() == NONCE_SIZE,
        e_ct.len() == plaintext.len() + TAG_SIZE,
        open_spec(key, e_nonce, e_ct, aad) == Some(plaintext),
    ensures
        parse_envelope(envelope_bytes(e_nonce, e_ct)) matches Some((n, c))
            && open_spec(key, n, c, aad) == Some(plaintext),
{
    law_parse_serialize(e_nonce, e_ct);
}

/// Every envelope whose ciphertext holds at least a tag reads back from
/// its serialized bytes with the same nonce and ciphertext; `from_bytes`
/// then binds the context it is given, so given the envelope's own context
/// (or a clone of it, which equals it) it gives back the envelope's nonce,
/// ciphertext and binding.
pub proof fn law_envelope_roundtrip(e: EncryptedEnvelope)
    requires
        e.ct().len() >= TAG_SIZE,
    ensures
        parse_envelope(e.serialized()) == Some((e.nonce_bytes(), e.ct())),
{
    law_parse_serialize(e.nonce_bytes(), e.ct());
}

} // verus!
