//! Stored, versioned Argon2id parameters.
//!
//! The parameters live next to the salt in `vault_meta`; they are validated
//! on load against fixed minimums (to defeat downgrade attacks) and flagged
//! for upgrade when weaker than the current recommendation.

use vstd::prelude::*;
use vstd::string::*;
use crate::error::{KestrelError, KestrelResult};
use crate::crypto::kdf::{MEMORY_COST, ITERATIONS, PARALLELISM, SALT_LEN, DERIVED_KEY_LEN};
use crate::text::{push_decimal, decimal};

verus! {

/// The current recommended parameter version.
pub const CURRENT_KDF_VERSION: u32 = 1;

/// Minimum memory cost in KiB (64 MiB).
pub const MIN_MEMORY_COST_KIB: u32 = 65536;

/// Minimum number of iterations.
pub const MIN_ITERATIONS: u32 = 1;

/// Minimum parallelism.
pub const MIN_PARALLELISM: u32 = 1;

/// Argon2id key derivation parameters.
#[derive(Debug, Clone, Copy, PartialEq, Eq, Structural)]
pub struct KdfParams {
    /// Parameter schema version.
    pub version: u32,
    /// Memory cost in KiB.
    pub memory_cost_kib: u32,
    /// Number of iterations.
    pub iterations: u32,
    /// Degree of parallelism.
    pub parallelism: u32,
    /// Salt length in bytes.
    pub salt_len: u32,
    /// Output key length in bytes.
    pub key_len: u32,
}

/// The current recommended parameters.
pub open spec fn current_params() -> KdfParams {
    KdfParams {
        version: CURRENT_KDF_VERSION,
        memory_cost_kib: MEMORY_COST,
        iterations: ITERATIONS,
        parallelism: PARALLELISM,
        salt_len: SALT_LEN as u32,
        key_len: DERIVED_KEY_LEN as u32,
    }
}

/// Parameters meet the security minimums.
pub open spec fn params_valid(p: KdfParams) -> bool {
    &&& p.memory_cost_kib >= MIN_MEMORY_COST_KIB
    &&& p.iterations >= MIN_ITERATIONS
    &&& p.parallelism >= MIN_PARALLELISM
    &&& p.salt_len >= 16
    &&& p.key_len == 32
}

/// Parameters are older or weaker than the current recommendation.
pub open spec fn params_need_upgrade(p: KdfParams) -> bool {
    ||| p.version < CURRENT_KDF_VERSION
    ||| p.memory_cost_kib < MEMORY_COST
    ||| p.iterations < ITERATIONS
    ||| p.parallelism < PARALLELISM
}

/// "Argon2id v{version}: {memory in MiB} MB, {iterations} iterations, parallelism {p}".
pub open spec fn params_description(p: KdfParams) -> Seq<char> {
    "Argon2id v"@ + decimal(p.version as nat) + ": "@ + decimal((p.memory_cost_kib / 1024) as nat) + " MB, "@
        + decimal(p.iterations as nat) + " iterations, parallelism "@ + decimal(p.parallelism as nat)
}

impl KdfParams {
    /// The current OWASP-recommended parameters.
    pub fn current() -> (p: Self)
        ensures
            p == current_params(),
    {
        KdfParams {
            version: CURRENT_KDF_VERSION,
            memory_cost_kib: MEMORY_COST,
            iterations: ITERATIONS,
            parallelism: PARALLELISM,
            salt_len: SALT_LEN as u32,
            key_len: DERIVED_KEY_LEN as u32,
        }
    }

    /// Same as `current`.
    pub fn default_owasp() -> (p: Self)
        ensures
            p == current_params(),
    {
        Self::current()
    }

    /// Custom costs with the current version, salt and key lengths; refused
    /// (`Validation`) when they are below the minimums.
    pub fn custom(memory_cost_kib: u32, iterations: u32, parallelism: u32) -> (r: KestrelResult<Self>)
        ensures
            ({
                let p = KdfParams {
                    version: CURRENT_KDF_VERSION,
                    memory_cost_kib,
                    iterations,
                    parallelism,
                    salt_len: SALT_LEN as u32,
                    key_len: DERIVED_KEY_LEN as u32,
                };
                match r {
                    Ok(q) => params_valid(p) && q == p,
                    Err(e) => !params_valid(p) && e is Validation,
                }
            }),
    {
        let params = KdfParams {
            version: CURRENT_KDF_VERSION,
            memory_cost_kib,
            iterations,
            parallelism,
            salt_len: SALT_LEN as u32,
            key_len: DERIVED_KEY_LEN as u32,
        };
        params.validate()?;
        Ok(params)
    }

    /// Checks the security minimums; `Validation` names the first one that fails.
    pub fn validate(&self) -> (r: KestrelResult<()>)
        ensures
            r is Ok <==> params_valid(*self),
            r matches Err(e) ==> e is Validation,
    {
        if self.memory_cost_kib < MIN_MEMORY_COST_KIB {
            let mut m = String::from_str("Memory cost ");
            push_decimal(&mut m, self.memory_cost_kib as u64);
            m.append(" KiB is below minimum 65536 KiB");
            return Err(KestrelError::Validation(m));
        }
        if self.iterations < MIN_ITERATIONS {
            let mut m = String::from_str("Iterations ");
            push_decimal(&mut m, self.iterations as u64);
            m.append(" is below minimum 1");
            return Err(KestrelError::Validation(m));
        }
        if self.parallelism < MIN_PARALLELISM {
            let mut m = String::from_str("Parallelism ");
            push_decimal(&mut m, self.parallelism as u64);
            m.append(" is below minimum 1");
            return Err(KestrelError::Validation(m));
        }
        if self.salt_len < 16 {
            let mut m = String::from_str("Salt length ");
            push_decimal(&mut m, self.salt_len as u64);
            m.append(" bytes is below minimum 16 bytes");
            return Err(KestrelError::Validation(m));
        }
        if self.key_len != 32 {
            let mut m = String::from_str("Key length must be 32 bytes (256 bits), got ");
            push_decimal(&mut m, self.key_len as u64);
            m.append(" bytes");
            return Err(KestrelError::Validation(m));
        }
        Ok(())
    }

    /// Whether any parameter is older or weaker than the current recommendation.
    pub fn needs_upgrade(&self) -> (r: bool)
        ensures
            r == params_need_upgrade(*self),
    {
        self.version < CURRENT_KDF_VERSION || self.memory_cost_kib < MEMORY_COST || self.iterations
            < ITERATIONS || self.parallelism < PARALLELISM
    }

    /// A human-readable description for the settings screen.
    pub fn description(&self) -> (s: String)
        ensures
            s@ == params_description(*self),
    {
        let mut s = String::from_str("Argon2id v");
        push_decimal(&mut s, self.version as u64);
        s.append(": ");
        push_decimal(&mut s, (self.memory_cost_kib / 1024) as u64);
        s.append(" MB, ");
        push_decimal(&mut s, self.iterations as u64);
        s.append(" iterations, parallelism ");
        push_decimal(&mut s, self.parallelism as u64);
        s
    }

    /// The display text, identical to `description`.
    pub fn to_string(&self) -> (s: String)
        ensures
            s@ == params_description(*self),
    {
        self.description()
    }
}

impl Default for KdfParams {
    fn default() -> (p: Self)
        ensures
            p == current_params(),
    {
        Self::current()
    }
}

/// The current parameters are valid and need no upgrade.
pub proof fn law_current_params_valid()
    ensures
        params_valid(current_params()),
        !params_need_upgrade(current_params()),
{
}

/// Parameters that need no upgrade are at least as strong as the current
/// recommendation, and so meet the cost minimums.
pub proof fn law_no_upgrade_means_strong(p: KdfParams)
    requires
        !params_need_upgrade(p),
    ensures
        p.memory_cost_kib >= MIN_MEMORY_COST_KIB,
        p.iterations >= MIN_ITERATIONS,
        p.parallelism >= MIN_PARALLELISM,
{
}


/// Parameters need no upgrade exactly when their version and every cost
/// (memory, iterations, parallelism) are at least the current
/// recommendation (version 1, 256 MiB, 3 iterations, 4 lanes): a single
/// cost below it, such as parallelism 1 with the rest current, needs an
/// upgrade.
pub proof fn law_upgrade_exactly_below_recommendation(p: KdfParams)
    ensures
        !params_need_upgrade(p) <==> (p.version >= 1 && p.memory_cost_kib >= 262144 && p.iterations >= 3
            && p.parallelism >= 4),
        !params_need_upgrade(p) ==> (p.version >= current_params().version && p.memory_cost_kib
            >= current_params().memory_cost_kib && p.iterations >= current_params().iterations && p.parallelism
            >= current_params().parallelism),
{
}

} // verus!
