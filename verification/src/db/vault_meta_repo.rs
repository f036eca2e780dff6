//! The vault's singleton metadata row: key-derivation parameters, salt,
//! test envelope and password hint.

use vstd::prelude::*;
use vstd::string::*;
use crate::error::KestrelError;

verus! {

/// The vault metadata row (always id 1).
#[derive(Debug, Clone)]
pub struct VaultMeta {
    /// Row id (always 1).
    pub id: i64,
    /// Hex-encoded key-derivation salt.
    pub salt: String,
    /// Argon2 iterations.
    pub iterations: u32,
    /// Argon2 memory cost in KiB.
    pub memory_cost: u32,
    /// Argon2 parallelism.
    pub parallelism: u32,
    /// Envelope used to check the master password.
    pub test_envelope: Vec<u8>,
    /// Optional password hint.
    pub hint: Option<String>,
    /// Creation time (RFC 3339).
    pub created_at: String,
    /// Last update time (RFC 3339).
    pub updated_at: String,
}

/// The vault-metadata repository.
pub struct VaultMetaRepo;

impl VaultMetaRepo {
    /// The metadata row to insert when initializing the vault at time
    /// `now`, or a configuration error when the vault already is
    /// initialized.
    pub fn initial_row(
        already_initialized: bool,
        salt: String,
        iterations: u32,
        memory_cost: u32,
        parallelism: u32,
        test_envelope: Vec<u8>,
        hint: Option<String>,
        now: String,
    ) -> (r: Result<VaultMeta, KestrelError>)
        ensures
            already_initialized <==> r is Err,
            r matches Err(e) ==> e is Config && e.message() == "Vault is already initialized"@,
            r matches Ok(m) ==> m.id == 1 && m.salt == salt && m.iterations == iterations && m.memory_cost
                == memory_cost && m.parallelism == parallelism && m.test_envelope == test_envelope && m.hint
                == hint && m.created_at@ == now@ && m.updated_at@ == now@,
    {
        if already_initialized {
            return Err(KestrelError::Config(String::from_str("Vault is already initialized")));
        }
        let created_at = now.clone();
        Ok(
            VaultMeta {
                id: 1,
                salt,
                iterations,
                memory_cost,
                parallelism,
                test_envelope,
                hint,
                created_at,
                updated_at: now,
            },
        )
    }

    /// The outcome of a salt update that changed `rows_affected` rows: a
    /// configuration error when no metadata row existed.
    pub fn salt_update_outcome(rows_affected: u64) -> (r: Result<(), KestrelError>)
        ensures
            r is Err <==> rows_affected == 0,
            r matches Err(e) ==> e is Config && e.message() == "Vault meta not found"@,
    {
        if rows_affected == 0 {
            return Err(KestrelError::Config(String::from_str("Vault meta not found")));
        }
        Ok(())
    }
}

} // verus!
