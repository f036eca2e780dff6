//! Argon2id key derivation.
//!
//! Parameters follow the OWASP recommendation: 256 MiB of memory, three
//! iterations, four lanes, a 16-byte salt and a 32-byte key.

use vstd::prelude::*;
use vstd::string::*;
use crate::error::{KestrelError, KestrelResult};
use crate::crypto::kdf_params::{KdfParams, params_valid};
use crate::crypto::random::random_bytes;

verus! {

/// Salt length in bytes (128 bits, per RFC 9106).
pub const SALT_LEN: usize = 16;

/// Derived key length in bytes (256 bits, for AES-256).
pub const DERIVED_KEY_LEN: usize = 32;

/// Memory cost in KiB (256 MiB).
pub const MEMORY_COST: u32 = 262144;

/// Number of Argon2id iterations.
pub const ITERATIONS: u32 = 3;

/// Degree of parallelism (lanes).
pub const PARALLELISM: u32 = 4;

/// A random salt for key derivation.
#[derive(Clone, Copy, Debug, PartialEq, Eq)]
pub struct Salt(pub [u8; 16]);

impl Salt {
    /// A new random salt from the system generator.
    pub fn generate() -> (r: Result<Self, KestrelError>)
        ensures
            r matches Err(e) ==> e is Crypto,
    {
        let mut bytes = [0u8; SALT_LEN];
        random_bytes(&mut bytes)?;
        Ok(Salt(bytes))
    }
}

/// A derived 256-bit key.
#[derive(Clone)]
pub struct DerivedKey {
    /// The raw key bytes.
    pub key: [u8; 32],
}

impl DerivedKey {
    /// Wraps raw key bytes.
    pub fn new(bytes: [u8; 32]) -> (k: Self)
        ensures
            k.key == bytes,
    {
        DerivedKey { key: bytes }
    }

    /// The raw key bytes, for passing to encryption functions.
    pub fn expose(&self) -> (b: &[u8; 32])
        ensures
            *b == self.key,
    {
        &self.key
    }
}

/// The 32-byte Argon2id (version 0x13) output for `password` and `salt`
/// under memory cost `m` KiB, `t` iterations and `p` lanes.
pub uninterp spec fn argon2id_key(password: Seq<u8>, salt: Seq<u8>, m: u32, t: u32, p: u32) -> Seq<u8>;

/// Whether argon2 accepts the cost parameters (as `Params::new` checks them).
pub open spec fn argon2_costs_ok(m: u32, t: u32, p: u32) -> bool {
    &&& m >= 8
    &&& m as int >= p as int * 8
    &&& t >= 1
    &&& 1 <= p <= 0xFFFFFF
}

/// Why an Argon2id derivation failed.
pub enum Argon2Failure {
    /// `Params::new` refused the cost parameters (with argon2's message).
    InvalidParams(String),
    /// `hash_password_into` refused the inputs (with argon2's message).
    HashFailed(String),
}

/// Argon2id derivation of a 32-byte key (`Params::new` with output length
/// 32, then `Argon2::new(Argon2id, V0x13, ..).hash_password_into`).
///
/// From argon2's source: the parameters are refused exactly when
/// `argon2_costs_ok` fails, and hashing is refused only for a salt outside
/// 8..=2^32-1 bytes or a password longer than 2^32-1 bytes. The key is named
/// `argon2id_key`. A lane count of 2^29 or more overflows the parameter
/// check, so it is excluded.
#[verifier::external_body]
fn argon2id_derive(password: &[u8], salt: &[u8], m: u32, t: u32, p: u32) -> (r: Result<[u8; 32], Argon2Failure>)
    requires
        p < 0x2000_0000,
    ensures
        r matches Err(Argon2Failure::InvalidParams(_)) <==> !argon2_costs_ok(m, t, p),
        r is Ok <==> (argon2_costs_ok(m, t, p) && 8 <= salt@.len() <= 0xFFFF_FFFF
            && password@.len() <= 0xFFFF_FFFF),
        r matches Ok(k) ==> k@ == argon2id_key(password@, salt@, m, t, p),
{
    let params = match argon2::Params::new(m, t, p, Some(32)) {
        Ok(params) => params,
        Err(e) => return Err(Argon2Failure::InvalidParams(e.to_string())),
    };
    let argon2 = argon2::Argon2::new(argon2::Algorithm::Argon2id, argon2::Version::V0x13, params);
    let mut out = [0u8; 32];
    match argon2.hash_password_into(password, salt, &mut out) {
        Ok(()) => Ok(out),
        Err(e) => Err(Argon2Failure::HashFailed(e.to_string())),
    }
}

/// A message followed by ": " and the outside error's own text.
pub(crate) fn with_detail(message: &str, detail: String) -> (s: String)
    ensures
        s@ == message@ + ": "@ + detail@,
{
    let mut s = String::from_str(message);
    s.append(": ");
    s.append(detail.as_str());
    s
}

/// Derives a key from a password and salt with the default parameters.
///
/// Succeeds for every password up to 2^32-1 bytes; the key is the Argon2id
/// output for the default costs.
pub fn derive_key(password: &[u8], salt: &Salt) -> (r: Result<DerivedKey, KestrelError>)
    ensures
        match r {
            Ok(k) => password@.len() <= 0xFFFF_FFFF
                && k.key@ == argon2id_key(password@, salt.0@, MEMORY_COST, ITERATIONS, PARALLELISM),
            Err(e) => password@.len() > 0xFFFF_FFFF && e is Crypto,
        },
{
    match argon2id_derive(password, &salt.0, MEMORY_COST, ITERATIONS, PARALLELISM) {
        Ok(k) => Ok(DerivedKey::new(k)),
        Err(Argon2Failure::InvalidParams(detail)) => Err(KestrelError::Crypto(with_detail("Invalid Argon2 params", detail))),
        Err(Argon2Failure::HashFailed(detail)) => Err(
            KestrelError::Crypto(with_detail("Argon2id derivation failed", detail)),
        ),
    }
}

/// Derives a key with a freshly generated salt, returning both.
pub fn derive_key_with_new_salt(password: &[u8]) -> (r: Result<(DerivedKey, Salt), KestrelError>)
    ensures
        r matches Ok((k, s)) ==> k.key@ == argon2id_key(password@, s.0@, MEMORY_COST, ITERATIONS, PARALLELISM),
        password@.len() > 0xFFFF_FFFF ==> r is Err,
        r matches Err(e) ==> e is Crypto,
{
    let salt = Salt::generate()?;
    let key = derive_key(password, &salt)?;
    Ok((key, salt))
}

/// Derives a key with stored parameters, which are validated first so that a
/// tampered record cannot weaken the derivation.
///
/// Refused with `Validation` when the parameters are below the minimums;
/// otherwise the key is the Argon2id output for the stored costs.
pub fn derive_key_with_params(password: &[u8], salt: &Salt, params: &KdfParams) -> (r: Result<DerivedKey, KestrelError>)
    requires
        params.parallelism < 0x2000_0000,
    ensures
        !params_valid(*params) ==> (r matches Err(e) && e is Validation),
        params_valid(*params) ==> match r {
            Ok(k) => argon2_costs_ok(params.memory_cost_kib, params.iterations, params.parallelism)
                && password@.len() <= 0xFFFF_FFFF
                && k.key@ == argon2id_key(password@, salt.0@, params.memory_cost_kib, params.iterations, params.parallelism),
            Err(e) => e is Crypto && (!argon2_costs_ok(params.memory_cost_kib, params.iterations, params.parallelism)
                || password@.len() > 0xFFFF_FFFF),
        },
{
    params.validate()?;
    match argon2id_derive(password, &salt.0, params.memory_cost_kib, params.iterations, params.parallelism) {
        Ok(k) => Ok(DerivedKey::new(k)),
        Err(Argon2Failure::InvalidParams(detail)) => Err(KestrelError::Crypto(with_detail("Invalid Argon2 params", detail))),
        Err(Argon2Failure::HashFailed(detail)) => Err(
            KestrelError::Crypto(with_detail("Argon2id derivation failed", detail)),
        ),
    }
}

} // verus!
