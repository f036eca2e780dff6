//! Purpose-bound sub-keys derived from the data encryption key.
//!
//! ```text
//! DEK ├── HKDF(info="kestrel:field-encryption")  → field key
//!     ├── HKDF(info="kestrel:file-encryption")   → file key
//!     ├── HKDF(info="kestrel:search-index")      → search key
//!     ├── HKDF(info="kestrel:export-encryption") → export key
//!     └── HKDF(info="kestrel:totp-encryption")   → TOTP key
//! ```
//!
//! Sub-keys are never stored; the same DEK and purpose always give the
//! same sub-key.

use vstd::prelude::*;
use vstd::utf8::{decode_utf8, valid_utf8};
use vstd::string::*;
use crate::error::{KestrelError, KestrelResult};
use crate::crypto::kdf::DerivedKey;

verus! {

/// Length of a sub-key in bytes.
pub const SUBKEY_LEN: usize = 32;

/// Purpose string of the field-encryption sub-key.
pub const INFO_FIELD_ENCRYPTION: &'static str = "kestrel:field-encryption";
/// Purpose string of the file-encryption sub-key.
pub const INFO_FILE_ENCRYPTION: &'static str = "kestrel:file-encryption";
/// Purpose string of the search-index sub-key.
pub const INFO_SEARCH_INDEX: &'static str = "kestrel:search-index";
/// Purpose string of the export-encryption sub-key.
pub const INFO_EXPORT_ENCRYPTION: &'static str = "kestrel:export-encryption";
/// Purpose string of the TOTP-encryption sub-key.
pub const INFO_TOTP_ENCRYPTION: &'static str = "kestrel:totp-encryption";

/// The HKDF-SHA256 output (32 bytes, empty salt) for input key material
/// `ikm` and context `info`.
pub uninterp spec fn hkdf_sha256(ikm: Seq<u8>, info: Seq<u8>) -> Seq<u8>;

/// The error type HKDF reports for an unsupported output length.
#[verifier::external_type_specification]
#[verifier::external_body]
pub struct ExInvalidLength(hkdf::InvalidLength);

/// HKDF-SHA256 extract (no salt) then expand to 32 bytes
/// (`Hkdf::<Sha256>::new(None, ikm).expand(info, ..)`).
///
/// The output is named `hkdf_sha256`. As hkdf's source shows, expansion
/// fails only for outputs longer than 255 hash blocks, so a 32-byte
/// expansion always succeeds.
#[verifier::external_body]
fn hkdf_sha256_expand(ikm: &[u8; 32], info: &[u8]) -> (r: Result<[u8; 32], hkdf::InvalidLength>)
    ensures
        r is Ok,
        r matches Ok(okm) ==> okm@ == hkdf_sha256(ikm@, info@),
{
    let h = hkdf::Hkdf::<sha2::Sha256>::new(None, ikm);
    let mut okm = [0u8; 32];
    match h.expand(info, &mut okm) {
        Ok(()) => Ok(okm),
        Err(e) => Err(e),
    }
}

/// The UTF-8 bytes of the five built-in purpose strings.
pub open spec fn builtin_purposes() -> Seq<Seq<u8>> {
    seq![
        INFO_FIELD_ENCRYPTION.spec_bytes(),
        INFO_FILE_ENCRYPTION.spec_bytes(),
        INFO_SEARCH_INDEX.spec_bytes(),
        INFO_EXPORT_ENCRYPTION.spec_bytes(),
        INFO_TOTP_ENCRYPTION.spec_bytes(),
    ]
}

/// A sub-key together with the purpose it was derived for.
#[derive(Clone)]
pub struct SubKey {
    key: [u8; 32],
    purpose: Vec<u8>,
}

impl SubKey {
    /// The key bytes.
    pub closed spec fn key_bytes(&self) -> Seq<u8> {
        self.key@
    }

    /// The purpose (HKDF info) bytes.
    pub closed spec fn purpose_bytes(&self) -> Seq<u8> {
        self.purpose@
    }

    /// The raw key bytes, for passing to encryption functions.
    pub fn expose(&self) -> (b: &[u8; 32])
        ensures
            b@ == self.key_bytes(),
    {
        &self.key
    }

    /// The sub-key as a `DerivedKey` for the cipher and envelope functions.
    pub fn as_derived_key(&self) -> (k: DerivedKey)
        ensures
            k.key@ == self.key_bytes(),
    {
        DerivedKey::new(self.key)
    }

    /// The purpose (HKDF info) this sub-key was derived for.
    pub fn purpose(&self) -> (p: &[u8])
        ensures
            p@ == self.purpose_bytes(),
    {
        self.purpose.as_slice()
    }

    /// A redacted description: "SubKey([REDACTED], purpose=...)" with the
    /// purpose quoted as `Debug` quotes a string (or "<invalid>" when the
    /// purpose is not UTF-8); the key bytes are never shown.
    pub fn debug_string(&self) -> (s: String)
        ensures
            s@ == "SubKey([REDACTED], purpose="@ + debug_quoted(purpose_text(self.purpose_bytes())) + ")"@,
    {
        let mut s = String::from_str("SubKey([REDACTED], purpose=");
        let q = match utf8_text(self.purpose.as_slice()) {
            Some(t) => debug_quote(t.as_str()),
            None => debug_quote("<invalid>"),
        };
        s.append(q.as_str());
        s.append(")");
        s
    }
}

/// The text of a purpose: its UTF-8 decoding, or "<invalid>" when the
/// bytes are not UTF-8.
pub open spec fn purpose_text(purpose: Seq<u8>) -> Seq<char> {
    if valid_utf8(purpose) {
        decode_utf8(purpose)
    } else {
        "<invalid>"@
    }
}

/// The UTF-8 text of some bytes (`str::from_utf8`): `Some` exactly when
/// the bytes are valid UTF-8, with the characters they encode.
#[verifier::external_body]
fn utf8_text(bytes: &[u8]) -> (r: Option<String>)
    ensures
        r is Some <==> valid_utf8(bytes@),
        r matches Some(t) ==> t@ == decode_utf8(bytes@),
{
    match std::str::from_utf8(bytes) {
        Ok(t) => Some(t.to_string()),
        Err(_) => None,
    }
}

/// A text as `Debug` shows a `str`: in double quotes, with Rust's escapes.
pub uninterp spec fn debug_quoted(text: Seq<char>) -> Seq<char>;

/// Quotes a text as `Debug` shows a `str` (`<str as Debug>::fmt`); the
/// rendering is named `debug_quoted`.
#[verifier::external_body]
fn debug_quote(text: &str) -> (s: String)
    ensures
        s@ == debug_quoted(text@),
{
    format!("{:?}", text)
}

/// Whether two byte slices are equal.
fn bytes_equal(a: &[u8], b: &[u8]) -> (r: bool)
    ensures
        r == (a@ == b@),
{
    if a.len() != b.len() {
        return false;
    }
    let mut i: usize = 0;
    while i < a.len()
        invariant
            a@.len() == b@.len(),
            i <= a@.len(),
            forall|j: int| 0 <= j < i ==> a@[j] == b@[j],
        decreases a@.len() - i,
    {
        if a[i] != b[i] {
            return false;
        }
        i = i + 1;
    }
    assert(a@ =~= b@);
    true
}

/// Derives the sub-key for `info` from the DEK with HKDF-SHA256.
pub fn derive_subkey(dek: &DerivedKey, info: &[u8]) -> (r: KestrelResult<SubKey>)
    ensures
        r matches Ok(k) && k.key_bytes() == hkdf_sha256(dek.key@, info@) && k.purpose_bytes() == info@,
{
    match hkdf_sha256_expand(&dek.key, info) {
        Ok(okm) => {
            let mut purpose: Vec<u8> = Vec::new();
            purpose.extend_from_slice(info);
            Ok(SubKey { key: okm, purpose })
        },
        Err(_) => Err(KestrelError::Crypto(String::from_str("HKDF expansion failed"))),
    }
}

/// The five sub-keys the vault uses.
pub struct SubKeySet {
    /// Field-level encryption (passwords, notes, URLs, tags).
    pub field_encryption: SubKey,
    /// File attachment encryption.
    pub file_encryption: SubKey,
    /// Searchable index keying.
    pub search_index: SubKey,
    /// Export encryption.
    pub export_encryption: SubKey,
    /// TOTP secret encryption.
    pub totp_encryption: SubKey,
}

/// The sub-key a DEK gives for a purpose.
pub open spec fn subkey_for(dek: Seq<u8>, info: &str) -> Seq<u8> {
    hkdf_sha256(dek, info.spec_bytes())
}

impl SubKeySet {
    /// Derives every built-in sub-key from the DEK; each one is the HKDF
    /// output for its purpose string.
    pub fn derive_from_dek(dek: &DerivedKey) -> (r: KestrelResult<Self>)
        ensures
            r matches Ok(s) && {
                &&& s.field_encryption.key_bytes() == subkey_for(dek.key@, INFO_FIELD_ENCRYPTION)
                &&& s.field_encryption.purpose_bytes() == INFO_FIELD_ENCRYPTION.spec_bytes()
                &&& s.file_encryption.key_bytes() == subkey_for(dek.key@, INFO_FILE_ENCRYPTION)
                &&& s.file_encryption.purpose_bytes() == INFO_FILE_ENCRYPTION.spec_bytes()
                &&& s.search_index.key_bytes() == subkey_for(dek.key@, INFO_SEARCH_INDEX)
                &&& s.search_index.purpose_bytes() == INFO_SEARCH_INDEX.spec_bytes()
                &&& s.export_encryption.key_bytes() == subkey_for(dek.key@, INFO_EXPORT_ENCRYPTION)
                &&& s.export_encryption.purpose_bytes() == INFO_EXPORT_ENCRYPTION.spec_bytes()
                &&& s.totp_encryption.key_bytes() == subkey_for(dek.key@, INFO_TOTP_ENCRYPTION)
                &&& s.totp_encryption.purpose_bytes() == INFO_TOTP_ENCRYPTION.spec_bytes()
            },
    {
        Ok(SubKeySet {
            field_encryption: derive_subkey(dek, INFO_FIELD_ENCRYPTION.as_bytes())?,
            file_encryption: derive_subkey(dek, INFO_FILE_ENCRYPTION.as_bytes())?,
            search_index: derive_subkey(dek, INFO_SEARCH_INDEX.as_bytes())?,
            export_encryption: derive_subkey(dek, INFO_EXPORT_ENCRYPTION.as_bytes())?,
            totp_encryption: derive_subkey(dek, INFO_TOTP_ENCRYPTION.as_bytes())?,
        })
    }

    /// Derives a sub-key for a custom purpose. Purposes that coincide with a
    /// built-in one are refused (`Crypto`), so custom keys never alias the
    /// vault's own.
    pub fn derive_custom(dek: &DerivedKey, info: &[u8]) -> (r: KestrelResult<SubKey>)
        ensures
            builtin_purposes().contains(info@) ==> (r matches Err(e) && e is Crypto),
            !builtin_purposes().contains(info@) ==> (r matches Ok(k) && k.key_bytes() == hkdf_sha256(
                dek.key@,
                info@,
            ) && k.purpose_bytes() == info@),
    {
        if bytes_equal(info, INFO_FIELD_ENCRYPTION.as_bytes()) || bytes_equal(info, INFO_FILE_ENCRYPTION.as_bytes())
            || bytes_equal(info, INFO_SEARCH_INDEX.as_bytes()) || bytes_equal(
            info,
            INFO_EXPORT_ENCRYPTION.as_bytes(),
        ) || bytes_equal(info, INFO_TOTP_ENCRYPTION.as_bytes()) {
            assert(builtin_purposes().contains(info@)) by {
                if info@ == INFO_FIELD_ENCRYPTION.spec_bytes() {
                    assert(builtin_purposes()[0] == info@);
                } else if info@ == INFO_FILE_ENCRYPTION.spec_bytes() {
                    assert(builtin_purposes()[1] == info@);
                } else if info@ == INFO_SEARCH_INDEX.spec_bytes() {
                    assert(builtin_purposes()[2] == info@);
                } else if info@ == INFO_EXPORT_ENCRYPTION.spec_bytes() {
                    assert(builtin_purposes()[3] == info@);
                } else {
                    assert(builtin_purposes()[4] == info@);
                }
            }
            return Err(
                KestrelError::Crypto(
                    String::from_str("Custom sub-key info string must not overlap with built-in purposes"),
                ),
            );
        }
        assert(!builtin_purposes().contains(info@)) by {
            if builtin_purposes().contains(info@) {
                let i = choose|i: int| 0 <= i < 5 && builtin_purposes()[i] == info@;
                assert(i == 0 || i == 1 || i == 2 || i == 3 || i == 4);
            }
        }
        derive_subkey(dek, info)
    }
}

/// Sub-key derivation is deterministic: the same DEK and purpose give the
/// same sub-key (so sub-keys can always be re-derived instead of stored).
pub proof fn law_subkeys_deterministic(dek1: Seq<u8>, dek2: Seq<u8>, info1: Seq<u8>, info2: Seq<u8>)
    requires
        dek1 == dek2,
        info1 == info2,
    ensures
        hkdf_sha256(dek1, info1) == hkdf_sha256(dek2, info2),
{
}

} // verus!
