//! Local, hash-based breach lookup.
//!
//! Passwords are hashed with SHA-256 before any comparison and the hash is
//! cleared after use; nothing leaves the device.

use vstd::prelude::*;
use vstd::string::*;
use crate::error::KestrelError;
use crate::scanner::ThreatLevel;
use crate::text::{push_decimal, decimal, push_hex, hex_of};
use sha2::Digest;

verus! {

/// Result of a breach lookup.
#[derive(Clone, Debug)]
pub struct BreachCheckResult {
    /// Whether the password was found.
    pub is_breached: bool,
    /// Threat level implied by the result.
    pub threat_level: ThreatLevel,
    /// How often the password appeared in breaches (0 if not found).
    pub occurrence_count: u64,
    /// Human-readable message.
    pub message: String,
}

impl BreachCheckResult {
    /// A result for a password found `count` times in breaches.
    pub fn breached(count: u64) -> (r: Self)
        ensures
            r.is_breached,
            r.threat_level == ThreatLevel::Critical,
            r.occurrence_count == count,
            r.message@ == "This password has appeared in "@ + decimal(count as nat) + " known data breaches"@,
    {
        let mut message = String::from_str("This password has appeared in ");
        push_decimal(&mut message, count);
        message.append(" known data breaches");
        BreachCheckResult { is_breached: true, threat_level: ThreatLevel::Critical, occurrence_count: count, message }
    }

    /// A result for a password that was not found.
    pub fn not_breached() -> (r: Self)
        ensures
            !r.is_breached,
            r.threat_level == ThreatLevel::NoThreat,
            r.occurrence_count == 0,
            r.message@ == "This password was not found in known data breaches"@,
    {
        BreachCheckResult {
            is_breached: false,
            threat_level: ThreatLevel::NoThreat,
            occurrence_count: 0,
            message: String::from_str("This password was not found in known data breaches"),
        }
    }
}

/// The SHA-256 digest of a byte sequence.
pub uninterp spec fn sha256(data: Seq<u8>) -> Seq<u8>;

/// SHA-256 of the password's UTF-8 bytes, for lookup only
/// (`Sha256::new`, `update`, `finalize`).
///
/// The digest is named `sha256`; it is 32 bytes long.
#[verifier::external_body]
pub fn hash_password_for_lookup(password: &str) -> (h: [u8; 32])
    ensures
        h@ == sha256(password.spec_bytes()),
{
    let mut hasher = sha2::Sha256::new();
    hasher.update(password.as_bytes());
    hasher.finalize().into()
}

/// Overwrites a digest with zeros (`Zeroize::zeroize`).
#[verifier::external_body]
fn zeroize_digest(h: &mut [u8; 32])
    ensures
        final(h)@ == Seq::new(32, |i: int| 0u8),
{
    zeroize::Zeroize::zeroize(h);
}

/// Checks a password against the local breach list.
///
/// The password is hashed and the hash is cleared afterwards. The local
/// breach list holds no entries yet, so every password is reported as not
/// breached.
pub fn check_breach_status(password: &str) -> (r: Result<BreachCheckResult, KestrelError>)
    ensures
        r matches Ok(res) && !res.is_breached && res.threat_level == ThreatLevel::NoThreat && res.occurrence_count == 0
            && res.message@ == "This password was not found in known data breaches"@,
{
    let mut hash = hash_password_for_lookup(password);
    zeroize_digest(&mut hash);
    Ok(BreachCheckResult::not_breached())
}

/// Lower-case hexadecimal rendering of a SHA-256 digest (64 characters).
pub fn hash_to_hex(hash: &[u8; 32]) -> (s: String)
    ensures
        s@ == hex_of(hash@),
{
    let mut s = String::new();
    push_hex(&mut s, hash);
    assert(s@ =~= hex_of(hash@));
    s
}

} // verus!
