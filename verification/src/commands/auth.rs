//! The decisions behind the authentication commands: vault initialization,
//! unlocking, locking and changing the master password, guarded by the
//! failed-attempt lockout and the login rate limit.
//!
//! Initialization derives a key from the master password (Argon2id with a
//! fresh salt), seals a fixed check value with it and wraps a fresh random
//! data encryption key (DEK) under it; unlocking derives the key again and
//! opens the check and the DEK, so only the right password unlocks (and
//! hands the session the DEK), and each wrong one is recorded as a failed
//! attempt. Changing the password re-wraps the same DEK under the new key.

use vstd::prelude::*;
use vstd::string::*;
use vstd::utf8::encode_utf8;
use crate::commands::types::{string_field_failure, validate_no_null_bytes, validate_string_field, ValidationRules};
use crate::crypto::envelope::{open_envelope, open_spec, seal_envelope, EncryptedEnvelope};
use crate::crypto::kdf::{argon2_costs_ok, argon2id_key, derive_key_with_params, DerivedKey, Salt};
use crate::crypto::key_management::{generate_dek, unwrap_dek, unwrapped_dek, wrap_dek};
use crate::crypto::kdf_params::{current_params, params_valid, KdfParams};
use crate::crypto::random::random_salt;
use crate::error::KestrelError;
use crate::security::lockout::{check_lockout, lockout_for, FailedAttemptTracker, LockoutState};
use crate::security::rate_limit::{
    default_max_attempts_spec, default_window_seconds_spec, law_pruning_idempotent, Operation, RateLimiter, TrackerView,
};
use crate::text::{decimal, str_eq};
use crate::time::Timestamp;

verus! {

/// What the vault keeps to recognise its master password: the salt of the
/// key derivation, the check value sealed under the derived key, and the
/// data encryption key wrapped under it.
struct Credentials {
    salt: Salt,
    check: EncryptedEnvelope,
    wrapped_dek: EncryptedEnvelope,
}

/// The authentication state behind the commands.
pub struct AuthGate {
    credentials: Option<Credentials>,
    unlocked: bool,
    lockout: FailedAttemptTracker,
    limiter: RateLimiter,
    kdf: KdfParams,
    dek: Option<DerivedKey>,
    hint: Option<String>,
}

/// The value sealed at initialization: "KESTREL-VAULT-OK".
pub open spec fn password_check_bytes() -> Seq<u8> {
    seq![75u8, 69, 83, 84, 82, 69, 76, 45, 86, 65, 85, 76, 84, 45, 79, 75]
}

fn password_check() -> (v: Vec<u8>)
    ensures
        v@ == password_check_bytes(),
{
    let v: Vec<u8> = vec![75u8, 69, 83, 84, 82, 69, 76, 45, 86, 65, 85, 76, 84, 45, 79, 75];
    assert(v@ =~= password_check_bytes());
    v
}

/// The key a password derives with the credentials' salt.
spec fn kek(kdf: KdfParams, c: Credentials, password: Seq<u8>) -> Seq<u8> {
    argon2id_key(password, c.salt.0@, kdf.memory_cost_kib, kdf.iterations, kdf.parallelism)
}

/// The stored check opens, under the key a password derives, to the check
/// value.
spec fn check_opens(kdf: KdfParams, c: Credentials, password: Seq<u8>) -> bool {
    open_spec(kek(kdf, c, password), c.check.nonce_bytes(), c.check.ct(), c.check.aad().bytes()) == Some(
        password_check_bytes(),
    )
}

/// The DEK the credentials hold under the key a password derives.
spec fn dek_of(kdf: KdfParams, c: Credentials, password: Seq<u8>) -> Option<Seq<u8>> {
    unwrapped_dek(kek(kdf, c, password), c.wrapped_dek)
}

fn same_bytes(a: &[u8], b: &[u8]) -> (r: bool)
    ensures
        r == (a@ == b@),
{
    if a.len() != b.len() {
        return false;
    }
    let mut i: usize = 0;
    while i < a.len()
        invariant
            a@.len() == b@.len(),
            i <= a@.len(),
            forall|j: int| 0 <= j < i ==> a@[j] == b@[j],
        decreases a@.len() - i,
    {
        if a[i] != b[i] {
            return false;
        }
        i = i + 1;
    }
    assert(a@ =~= b@);
    true
}

/// The message when the login rate limit refuses a request.
pub open spec fn login_rate_message() -> Seq<char> {
    "Rate limit exceeded for Login. Please try again later."@
}

/// The message of the lockout refusal for a lockout state.
pub open spec fn lockout_message(s: LockoutState) -> Seq<char> {
    match s {
        LockoutState::Delayed(secs) => "Too many failed attempts. Please wait "@ + decimal(secs as nat)
            + " seconds before retrying."@,
        _ => "Account locked due to too many failed attempts. Vault reset required."@,
    }
}

/// Whether unlocking with this password at `now` succeeds: the vault is
/// initialized, neither the lockout nor the login rate limit refuses the
/// attempt, the password has no NUL, a key can be derived from it, and it
/// is the master password.
pub open spec fn unlocks(g: AuthGate, password: Seq<char>, now: Timestamp) -> bool {
    &&& g.initialized()
    &&& lockout_for(g.failures()) == LockoutState::Allowed
    &&& !g.login().pruned(now).limited()
    &&& !password.contains('\0')
    &&& g.derivable(encode_utf8(password))
    &&& g.accepts(encode_utf8(password))
}

/// The error has this variant-independent message.
pub open spec fn has_message(r: Result<(), KestrelError>, msg: Seq<char>) -> bool {
    r matches Err(e) && e.message() == msg
}

impl AuthGate {
    /// Whether the vault has been initialized.
    pub closed spec fn initialized(&self) -> bool {
        self.credentials is Some
    }

    /// The key-derivation parameters of the vault.
    pub closed spec fn kdf_params(&self) -> KdfParams {
        self.kdf
    }

    /// Whether a password (its UTF-8 bytes) is the master password: the key
    /// it derives opens the stored check to the check value and unwraps the
    /// DEK.
    pub closed spec fn accepts(&self, password: Seq<u8>) -> bool {
        match self.credentials {
            Some(c) => check_opens(self.kdf, c, password) && dek_of(self.kdf, c, password) is Some,
            None => false,
        }
    }

    /// The data encryption key that the key a password derives unwraps, if
    /// any.
    pub closed spec fn dek_under(&self, password: Seq<u8>) -> Option<Seq<u8>> {
        match self.credentials {
            Some(c) => dek_of(self.kdf, c, password),
            None => None,
        }
    }

    /// The master-password hint given at initialization, if any.
    pub closed spec fn hint(&self) -> Option<Seq<char>> {
        match self.hint {
            Some(h) => Some(h@),
            None => None,
        }
    }

    /// The data encryption key of the session, while unlocked.
    pub closed spec fn session_dek(&self) -> Option<Seq<u8>> {
        match self.dek {
            Some(k) => Some(k.key@),
            None => None,
        }
    }

    /// Whether a key can be derived from a password (its UTF-8 bytes) with
    /// the vault's parameters.
    pub open spec fn derivable(&self, password: Seq<u8>) -> bool {
        let p = self.kdf_params();
        &&& params_valid(p)
        &&& p.parallelism < 0x2000_0000
        &&& argon2_costs_ok(p.memory_cost_kib, p.iterations, p.parallelism)
        &&& password.len() <= 0xFFFF_FFFF
    }

    /// Both gates recognise the same master password the same way.
    pub closed spec fn same_credentials(&self, other: &AuthGate) -> bool {
        &&& self.credentials == other.credentials
        &&& self.kdf == other.kdf
    }

    /// The number of failed unlock attempts on record.
    pub closed spec fn failure_count(&self) -> nat {
        self.lockout.attempt_times().len()
    }

    /// Whether a session is unlocked.
    pub closed spec fn is_unlocked(&self) -> bool {
        self.unlocked
    }

    /// The recorded failed unlock attempts, as the lockout counts them.
    pub closed spec fn failures(&self) -> u32 {
        self.lockout.count()
    }

    /// The login rate-limit tracker.
    pub closed spec fn login(&self) -> TrackerView {
        self.limiter.tracker(Operation::Login)
    }

    /// The rate-limit tracker of an operation.
    pub closed spec fn limit_tracker(&self, op: Operation) -> TrackerView {
        self.limiter.tracker(op)
    }

    /// The rate limits of the other operations are the same in both gates.
    pub closed spec fn other_limits_match(&self, other: &AuthGate) -> bool {
        self.limiter.others_unchanged(&other.limiter, Operation::Login)
    }

    /// Both gates agree on everything but the login tracker.
    pub open spec fn same_but_login(&self, other: &AuthGate) -> bool {
        &&& self.initialized() == other.initialized()
        &&& self.is_unlocked() == other.is_unlocked()
        &&& self.failures() == other.failures()
        &&& self.failure_count() == other.failure_count()
        &&& self.other_limits_match(other)
        &&& self.same_credentials(other)
        &&& self.session_dek() == other.session_dek()
        &&& self.hint() == other.hint()
    }

    /// A fresh gate: not initialized, locked, no failures, every
    /// operation's rate limit at its default with no attempts recorded, and
    /// the current key-derivation parameters.
    pub fn new() -> (g: Self)
        ensures
            !g.initialized(),
            !g.is_unlocked(),
            g.failures() == 0,
            g.failure_count() == 0,
            g.login() == TrackerView::empty(5, 300),
            forall|o: Operation|
                #[trigger] g.limit_tracker(o) == TrackerView::empty(
                    default_max_attempts_spec(o),
                    default_window_seconds_spec(o),
                ),
            g.kdf_params() == current_params(),
    {
        Self::with_kdf_params(KdfParams::current())
    }

    /// A fresh gate that derives keys with the given parameters (the
    /// parameters a vault was created with).
    pub fn with_kdf_params(params: KdfParams) -> (g: Self)
        ensures
            !g.initialized(),
            !g.is_unlocked(),
            g.failures() == 0,
            g.failure_count() == 0,
            g.login() == TrackerView::empty(5, 300),
            forall|o: Operation|
                #[trigger] g.limit_tracker(o) == TrackerView::empty(
                    default_max_attempts_spec(o),
                    default_window_seconds_spec(o),
                ),
            g.kdf_params() == params,
            g.session_dek() is None,
            g.hint() is None,
    {
        AuthGate {
            credentials: None,
            unlocked: false,
            lockout: FailedAttemptTracker::new(),
            limiter: RateLimiter::new(),
            kdf: params,
            dek: None,
            hint: None,
        }
    }

    /// Whether the vault has been initialized.
    pub fn is_vault_initialized(&self) -> (b: bool)
        ensures
            b == self.initialized(),
    {
        self.credentials.is_some()
    }

    /// Derives the key of a password and checks it against the stored
    /// check value, then unwraps the DEK with it: `Ok(Some(dek))` exactly
    /// for the master password, an error when no key can be derived.
    fn password_matches(&self, password: &str) -> (r: Result<Option<DerivedKey>, KestrelError>)
        requires
            self.initialized(),
        ensures
            match r {
                Ok(Some(d)) => self.derivable(password.spec_bytes()) && self.accepts(password.spec_bytes())
                    && self.dek_under(password.spec_bytes()) == Some(d.key@),
                Ok(None) => self.derivable(password.spec_bytes()) && !self.accepts(password.spec_bytes()),
                Err(e) => !self.derivable(password.spec_bytes()) && (e is Crypto || e is Validation),
            },
    {
        if self.kdf.parallelism >= 0x2000_0000 {
            return Err(KestrelError::Validation(String::from_str("Argon2 parallelism is too large")));
        }
        let c = match &self.credentials {
            Some(c) => c,
            None => {
                return Ok(None);
            },
        };
        let key = derive_key_with_params(password.as_bytes(), &c.salt, &self.kdf)?;
        let check = password_check();
        let opened = match open_envelope(&key, &c.check) {
            Ok(p) => same_bytes(p.as_slice(), check.as_slice()),
            Err(_) => false,
        };
        if !opened {
            return Ok(None);
        }
        match unwrap_dek(&key, &c.wrapped_dek) {
            Ok(d) => Ok(Some(d)),
            Err(_) => Ok(None),
        }
    }

    /// Fresh credentials for a password: a new random salt, the derived
    /// key, the check value sealed under it and `dek` wrapped under it.
    fn new_credentials(&self, password: &str, dek: &DerivedKey) -> (r: Result<Credentials, KestrelError>)
        ensures
            r matches Ok(c) ==> check_opens(self.kdf, c, password.spec_bytes()) && dek_of(
                self.kdf,
                c,
                password.spec_bytes(),
            ) == Some(dek.key@),
            r matches Err(e) ==> e is Crypto || e is Validation,
            !self.derivable(password.spec_bytes()) ==> r is Err,
    {
        if self.kdf.parallelism >= 0x2000_0000 {
            return Err(KestrelError::Validation(String::from_str("Argon2 parallelism is too large")));
        }
        let salt = random_salt()?;
        let key = derive_key_with_params(password.as_bytes(), &salt, &self.kdf)?;
        let check = password_check();
        let sealed = seal_envelope(&key, check.as_slice(), "vault", "password_check")?;
        let wrapped_dek = wrap_dek(&key, dek)?;
        Ok(Credentials { salt, check: sealed, wrapped_dek })
    }

    /// The master-password hint given at initialization, if any.
    pub fn password_hint(&self) -> (h: Option<&str>)
        ensures
            match h {
                Some(t) => self.hint() == Some(t@),
                None => self.hint() is None,
            },
    {
        match &self.hint {
            Some(t) => Some(t.as_str()),
            None => None,
        }
    }

    /// The session's data encryption key, while unlocked.
    pub fn data_key(&self) -> (k: Option<&DerivedKey>)
        ensures
            match k {
                Some(d) => self.session_dek() == Some(d.key@),
                None => self.session_dek() is None,
            },
    {
        match &self.dek {
            Some(d) => Some(d),
            None => None,
        }
    }

    /// Refuses the request unless a session is unlocked.
    pub fn require_unlocked(&self) -> (r: Result<(), KestrelError>)
        ensures
            r is Ok <==> self.is_unlocked(),
            r matches Err(e) ==> e is Unauthorized && e.message() == "Vault is locked. Please unlock first."@,
    {
        if self.unlocked {
            Ok(())
        } else {
            Err(KestrelError::Unauthorized(String::from_str("Vault is locked. Please unlock first.")))
        }
    }

    /// Refuses the request when the login rate limit is reached at `now`
    /// (expired attempts are dropped first).
    fn check_login_rate(&mut self, now: Timestamp) -> (r: Result<(), KestrelError>)
        ensures
            final(self).login() == old(self).login().pruned(now),
            final(self).same_but_login(old(self)),
            r is Err <==> old(self).login().pruned(now).limited(),
            r matches Err(e) ==> e is Unauthorized && e.message() == login_rate_message(),
    {
        if self.limiter.is_rate_limited_at(Operation::Login, now) {
            return Err(KestrelError::Unauthorized(String::from_str("Rate limit exceeded for Login. Please try again later.")));
        }
        Ok(())
    }

    /// Initializes the vault with a master password (8 to 1024 bytes, not
    /// blank, no NUL) and an optional hint (at most 100 bytes, no NUL),
    /// unless it already is initialized or the login rate limit is reached.
    /// The password's key is derived with a fresh salt, seals the check
    /// value and wraps a fresh random DEK, so that this password, and only
    /// it, unlocks the vault. Fails (`Crypto`) when the random generator
    /// fails, and when no key can be derived with the vault's parameters.
    pub fn initialize_vault_at(&mut self, master_password: &str, hint: Option<&str>, now: Timestamp) -> (r: Result<
        (),
        KestrelError,
    >)
        ensures
            ({
                let pw_fail = string_field_failure(
                    master_password@,
                    encode_utf8(master_password@).len(),
                    8,
                    1024,
                    "Master password"@,
                    false,
                );
                let hint_fail = match hint {
                    Some(h) => string_field_failure(h@, encode_utf8(h@).len(), 0, 100, "Password hint"@, true),
                    None => None,
                };
                if old(self).initialized() {
                    &&& has_message(r, "Vault has already been initialized"@)
                    &&& r matches Err(e) && e is Vault
                    &&& *final(self) == *old(self)
                } else if pw_fail is Some {
                    &&& r matches Err(e) && e is Validation && e.message() == pw_fail->0
                    &&& *final(self) == *old(self)
                } else if hint_fail is Some {
                    &&& r matches Err(e) && e is Validation && e.message() == hint_fail->0
                    &&& *final(self) == *old(self)
                } else {
                    &&& final(self).login() == old(self).login().pruned(now)
                    &&& if old(self).login().pruned(now).limited() {
                        &&& r matches Err(e) && e is Unauthorized && e.message() == login_rate_message()
                        &&& final(self).same_but_login(old(self))
                    } else {
                        &&& final(self).is_unlocked() == old(self).is_unlocked()
                        &&& final(self).failures() == old(self).failures()
                        &&& final(self).failure_count() == old(self).failure_count()
                        &&& final(self).other_limits_match(old(self))
                        &&& final(self).kdf_params() == old(self).kdf_params()
                        &&& final(self).session_dek() == old(self).session_dek()
                        &&& r is Ok ==> final(self).hint() == match hint {
                            Some(h) => Some(h@),
                            None => None::<Seq<char>>,
                        }
                        &&& r is Err ==> final(self).hint() == old(self).hint()
                        &&& r is Ok ==> final(self).initialized() && final(self).accepts(master_password.spec_bytes())
                        &&& r is Ok ==> final(self).derivable(master_password.spec_bytes())
                        &&& r is Ok ==> final(self).dek_under(master_password.spec_bytes()) is Some
                        &&& r matches Err(e) ==> (e is Crypto || e is Validation) && final(self).same_but_login(
                            old(self),
                        )
                        &&& !old(self).derivable(master_password.spec_bytes()) ==> r is Err
                    }
                }
            }),
    {
        if self.credentials.is_some() {
            return Err(KestrelError::Vault(String::from_str("Vault has already been initialized")));
        }
        validate_string_field(
            master_password,
            ValidationRules::MIN_MASTER_PASSWORD_LEN,
            ValidationRules::MAX_PASSWORD_LEN,
            "Master password",
            false,
        )?;
        match hint {
            Some(h) => {
                validate_string_field(h, 0, ValidationRules::MAX_HINT_LEN, "Password hint", true)?;
            },
            None => {},
        }
        self.check_login_rate(now)?;
        let dek = generate_dek()?;
        let fresh = self.new_credentials(master_password, &dek)?;
        self.credentials = Some(fresh);
        self.hint = match hint {
            Some(h) => Some(String::from_str(h)),
            None => None,
        };
        Ok(())
    }

    /// Unlocks the vault: refused when it is not initialized, while the
    /// failed-attempt lockout applies, when the login rate limit is reached,
    /// or when the password holds a NUL byte (the attempt is then counted
    /// against the rate limit). Otherwise the password's key is derived and
    /// checked against the stored check value: a wrong password is refused
    /// and recorded as a failed attempt; the right one unlocks the session
    /// with the DEK it unwraps, clears the failed attempts and resets the
    /// login rate limit.
    pub fn unlock_at(&mut self, master_password: &str, now: Timestamp) -> (r: Result<(), KestrelError>)
        ensures
            r is Ok <==> unlocks(*old(self), master_password@, now),
            ({
                let lock = lockout_for(old(self).failures());
                let pruned = old(self).login().pruned(now);
                if !old(self).initialized() {
                    &&& r matches Err(e) && e is Vault && e.message() == "Vault has not been initialized"@
                    &&& *final(self) == *old(self)
                } else if lock != LockoutState::Allowed {
                    &&& r matches Err(e) && e is Unauthorized && e.message() == lockout_message(lock)
                    &&& *final(self) == *old(self)
                } else if pruned.limited() {
                    &&& r matches Err(e) && e is Unauthorized && e.message() == login_rate_message()
                    &&& final(self).login() == pruned
                    &&& final(self).same_but_login(old(self))
                } else if master_password@.contains('\0') {
                    &&& r matches Err(e) && e is Validation && e.message() == "Master password"@ + " must not contain null bytes"@
                    &&& final(self).login() == (TrackerView { times: pruned.times.push(now), ..pruned })
                    &&& final(self).same_but_login(old(self))
                } else if !old(self).derivable(master_password.spec_bytes()) {
                    &&& r matches Err(e) && (e is Crypto || e is Validation)
                    &&& final(self).login() == (TrackerView { times: pruned.times.push(now), ..pruned })
                    &&& final(self).same_but_login(old(self))
                } else if old(self).accepts(master_password.spec_bytes()) {
                    &&& r is Ok
                    &&& final(self).is_unlocked()
                    &&& final(self).initialized()
                    &&& final(self).failures() == 0
                    &&& final(self).failure_count() == 0
                    &&& final(self).login() == (TrackerView { times: Seq::empty(), ..pruned })
                    &&& final(self).other_limits_match(old(self))
                    &&& final(self).same_credentials(old(self))
                    &&& final(self).session_dek() == old(self).dek_under(master_password.spec_bytes())
                    &&& final(self).hint() == old(self).hint()
                } else {
                    &&& r matches Err(e) && e is Unauthorized && e.message() == "Incorrect master password"@
                    &&& final(self).is_unlocked() == old(self).is_unlocked()
                    &&& final(self).failure_count() == old(self).failure_count() + 1
                    &&& final(self).login() == (TrackerView { times: pruned.times.push(now), ..pruned })
                    &&& final(self).other_limits_match(old(self))
                    &&& final(self).same_credentials(old(self))
                    &&& final(self).session_dek() == old(self).session_dek()
                    &&& final(self).hint() == old(self).hint()
                }
            }),
    {
        if self.credentials.is_none() {
            return Err(KestrelError::Vault(String::from_str("Vault has not been initialized")));
        }
        let state = self.lockout.lockout_state();
        match state {
            LockoutState::Allowed => {},
            _ => {
                return check_lockout(state);
            },
        }
        self.check_login_rate(now)?;
        let ghost mid = *self;
        proof {
            law_pruning_idempotent(old(self).login(), now);
        }
        let recorded = self.limiter.record_attempt_at(Operation::Login, now);
        match recorded {
            Err(e) => {
                return Err(e);
            },
            Ok(()) => {},
        }
        assert(self.other_limits_match(&mid));
        validate_no_null_bytes(master_password, "Master password")?;
        let matched = self.password_matches(master_password)?;
        let dek = match matched {
            Some(d) => d,
            None => {
                self.lockout.record_failed_attempt();
                return Err(KestrelError::Unauthorized(String::from_str("Incorrect master password")));
            },
        };
        self.unlocked = true;
        self.dek = Some(dek);
        self.lockout.reset();
        self.limiter.reset_operation(Operation::Login);
        Ok(())
    }

    /// Locks the session and drops its DEK.
    pub fn lock(&mut self)
        ensures
            !final(self).is_unlocked(),
            final(self).session_dek() is None,
            final(self).hint() == old(self).hint(),
            final(self).initialized() == old(self).initialized(),
            final(self).failures() == old(self).failures(),
            final(self).failure_count() == old(self).failure_count(),
            final(self).login() == old(self).login(),
            final(self).other_limits_match(old(self)),
            final(self).same_credentials(old(self)),
    {
        self.unlocked = false;
        self.dek = None;
    }

    /// Changes the master password: requires an unlocked session, the login
    /// rate limit not reached, no NUL in the current password, a valid new
    /// password (8 to 1024 bytes, not blank, no NUL) that differs from the
    /// current one, and the current password verified against the stored
    /// check value. The new password then gets fresh credentials (a new salt,
    /// a new check value and the same DEK wrapped under its key), so it, and
    /// no longer the old one, unlocks the vault, to the same DEK. Fails
    /// (`Crypto`) when the random generator fails.
    pub fn change_password_at(&mut self, current: &str, new: &str, now: Timestamp) -> (r: Result<(), KestrelError>)
        ensures
            ({
                let pruned = old(self).login().pruned(now);
                let new_fail = string_field_failure(new@, encode_utf8(new@).len(), 8, 1024, "New password"@, false);
                &&& !old(self).is_unlocked() ==> (r matches Err(e) && e is Unauthorized && e.message()
                    == "Vault is locked. Please unlock first."@ && *final(self) == *old(self))
                &&& old(self).is_unlocked() ==> {
                    &&& final(self).login() == pruned
                    &&& final(self).initialized() == old(self).initialized()
                    &&& final(self).is_unlocked() == old(self).is_unlocked()
                    &&& final(self).failures() == old(self).failures()
                    &&& final(self).failure_count() == old(self).failure_count()
                    &&& final(self).other_limits_match(old(self))
                    &&& final(self).kdf_params() == old(self).kdf_params()
                    &&& final(self).session_dek() == old(self).session_dek()
                    &&& final(self).hint() == old(self).hint()
                    &&& r is Err ==> final(self).same_credentials(old(self))
                    &&& if pruned.limited() {
                        r matches Err(e) && e is Unauthorized && e.message() == login_rate_message()
                    } else if current@.contains('\0') {
                        r matches Err(e) && e is Validation && e.message()
                            == "Current password"@ + " must not contain null bytes"@
                    } else if new_fail is Some {
                        r matches Err(e) && e is Validation && e.message() == new_fail->0
                    } else if current@ == new@ {
                        r matches Err(e) && e is Validation && e.message()
                            == "New password must be different from current password"@
                    } else if !old(self).initialized() {
                        r matches Err(e) && e is Vault && e.message() == "Vault has not been initialized"@
                    } else if !old(self).derivable(current.spec_bytes()) {
                        r matches Err(e) && (e is Crypto || e is Validation)
                    } else if !old(self).accepts(current.spec_bytes()) {
                        r matches Err(e) && e is Unauthorized && e.message() == "Current password is incorrect"@
                    } else {
                        &&& r is Ok ==> final(self).accepts(new.spec_bytes())
                        &&& r is Ok ==> final(self).derivable(new.spec_bytes())
                        &&& r is Ok ==> final(self).dek_under(new.spec_bytes()) == old(self).dek_under(
                            current.spec_bytes(),
                        )
                        &&& r matches Err(e) ==> e is Crypto || e is Validation
                        &&& !old(self).derivable(new.spec_bytes()) ==> r is Err
                    }
                }
            }),
    {
        self.require_unlocked()?;
        self.check_login_rate(now)?;
        validate_no_null_bytes(current, "Current password")?;
        validate_string_field(
            new,
            ValidationRules::MIN_MASTER_PASSWORD_LEN,
            ValidationRules::MAX_PASSWORD_LEN,
            "New password",
            false,
        )?;
        if str_eq(current, new) {
            return Err(KestrelError::Validation(String::from_str("New password must be different from current password")));
        }
        if self.credentials.is_none() {
            return Err(KestrelError::Vault(String::from_str("Vault has not been initialized")));
        }
        let verified = self.password_matches(current)?;
        let dek = match verified {
            Some(d) => d,
            None => {
                return Err(KestrelError::Unauthorized(String::from_str("Current password is incorrect")));
            },
        };
        let fresh = self.new_credentials(new, &dek)?;
        self.credentials = Some(fresh);
        Ok(())
    }
}

/// A password that initialized the vault unlocks it, to the data key that
/// initialization wrapped, whenever neither the lockout nor the login rate
/// limit refuses the attempt: the facts that a successful
/// [`AuthGate::initialize_vault_at`] leaves (initialized, the password
/// accepted and derivable, no NUL in it) are what [`AuthGate::unlock_at`]
/// asks.
pub proof fn law_initializing_password_unlocks(g: AuthGate, password: Seq<char>, now: Timestamp)
    requires
        g.initialized(),
        g.accepts(encode_utf8(password)),
        g.derivable(encode_utf8(password)),
        !password.contains('\0'),
        lockout_for(g.failures()) == LockoutState::Allowed,
        !g.login().pruned(now).limited(),
    ensures
        unlocks(g, password, now),
        g.dek_under(encode_utf8(password)) is Some,
{
}

/// After a password change, the new password unlocks the vault (unless the
/// lockout or the login rate limit refuses the attempt), and the data key it
/// unwraps is the one the old password unwrapped before the change: the
/// facts a successful [`AuthGate::change_password_at`] leaves are what
/// [`AuthGate::unlock_at`] asks.
pub proof fn law_changed_password_unlocks_to_same_key(
    before: AuthGate,
    after: AuthGate,
    current: Seq<char>,
    new: Seq<char>,
    now: Timestamp,
)
    requires
        after.initialized(),
        after.accepts(encode_utf8(new)),
        after.derivable(encode_utf8(new)),
        after.dek_under(encode_utf8(new)) == before.dek_under(encode_utf8(current)),
        !new.contains('\0'),
        lockout_for(after.failures()) == LockoutState::Allowed,
        !after.login().pruned(now).limited(),
    ensures
        unlocks(after, new, now),
        after.dek_under(encode_utf8(new)) is Some,
        after.dek_under(encode_utf8(new)) == before.dek_under(encode_utf8(current)),
{
}

impl Default for AuthGate {
    fn default() -> (g: Self)
        ensures
            !g.initialized(),
            !g.is_unlocked(),
            g.failures() == 0,
    {
        Self::new()
    }
}

} // verus!
