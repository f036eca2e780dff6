//! Application configuration with restrictive defaults and clamping.
//!
//! Defaults: auto-lock after 15 minutes, clipboard cleared after 30
//! seconds, 5 login attempts, 300 seconds of lockout, theme "dark",
//! language "en".
//!
//! Every value is clamped to a safe range on load:
//!
//! - `auto_lock_minutes`: 1..=480
//! - `clear_clipboard_seconds`: 5..=300
//! - `max_login_attempts`: 1..=20
//! - `lockout_duration_seconds`: 30..=3600

use vstd::prelude::*;
use vstd::string::*;
use crate::error::KestrelError;
use crate::text::{is_blank, is_blank_spec};
use std::path::PathBuf;

verus! {

/// Minimum auto-lock duration in minutes.
pub const AUTO_LOCK_MIN: u32 = 1;
/// Maximum auto-lock duration in minutes.
pub const AUTO_LOCK_MAX: u32 = 480;
/// Minimum clipboard clear time in seconds.
pub const CLIPBOARD_CLEAR_MIN: u32 = 5;
/// Maximum clipboard clear time in seconds.
pub const CLIPBOARD_CLEAR_MAX: u32 = 300;
/// Minimum login attempts before lockout.
pub const MAX_LOGIN_ATTEMPTS_MIN: u32 = 1;
/// Maximum login attempts before lockout.
pub const MAX_LOGIN_ATTEMPTS_MAX: u32 = 20;
/// Minimum lockout duration in seconds.
pub const LOCKOUT_DURATION_MIN: u32 = 30;
/// Maximum lockout duration in seconds.
pub const LOCKOUT_DURATION_MAX: u32 = 3600;

/// A filesystem path (the application data directory).
#[verifier::external_type_specification]
#[verifier::external_body]
pub struct ExPathBuf(PathBuf);

/// Application configuration.
#[derive(Clone, Debug, PartialEq)]
pub struct AppConfig {
    /// Minutes of inactivity before the vault auto-locks (1..=480).
    pub auto_lock_minutes: u32,
    /// Seconds before copied secrets are cleared from the clipboard (5..=300).
    pub clear_clipboard_seconds: u32,
    /// UI theme name.
    pub theme: String,
    /// UI language code.
    pub language: String,
    /// Failed logins before lockout (1..=20).
    pub max_login_attempts: u32,
    /// Seconds the vault stays locked out (30..=3600).
    pub lockout_duration_seconds: u32,
}

/// The configuration as plain values.
pub struct ConfigView {
    /// See [`AppConfig::auto_lock_minutes`].
    pub auto_lock_minutes: u32,
    /// See [`AppConfig::clear_clipboard_seconds`].
    pub clear_clipboard_seconds: u32,
    /// The theme's text.
    pub theme: Seq<char>,
    /// The language's text.
    pub language: Seq<char>,
    /// See [`AppConfig::max_login_attempts`].
    pub max_login_attempts: u32,
    /// See [`AppConfig::lockout_duration_seconds`].
    pub lockout_duration_seconds: u32,
}

impl View for AppConfig {
    type V = ConfigView;

    open spec fn view(&self) -> ConfigView {
        ConfigView {
            auto_lock_minutes: self.auto_lock_minutes,
            clear_clipboard_seconds: self.clear_clipboard_seconds,
            theme: self.theme@,
            language: self.language@,
            max_login_attempts: self.max_login_attempts,
            lockout_duration_seconds: self.lockout_duration_seconds,
        }
    }
}

/// `v` clamped to `lo..=hi`.
pub open spec fn clamp_spec(v: u32, lo: u32, hi: u32) -> u32 {
    if v < lo {
        lo
    } else if v > hi {
        hi
    } else {
        v
    }
}

/// A text, or the fallback when the text is blank.
pub open spec fn or_default(t: Seq<char>, fallback: Seq<char>) -> Seq<char> {
    if is_blank_spec(t) {
        fallback
    } else {
        t
    }
}

/// The configuration after clamping and filling in blank texts.
pub open spec fn validated(c: ConfigView) -> ConfigView {
    ConfigView {
        auto_lock_minutes: clamp_spec(c.auto_lock_minutes, AUTO_LOCK_MIN, AUTO_LOCK_MAX),
        clear_clipboard_seconds: clamp_spec(c.clear_clipboard_seconds, CLIPBOARD_CLEAR_MIN, CLIPBOARD_CLEAR_MAX),
        theme: or_default(c.theme, "dark"@),
        language: or_default(c.language, "en"@),
        max_login_attempts: clamp_spec(c.max_login_attempts, MAX_LOGIN_ATTEMPTS_MIN, MAX_LOGIN_ATTEMPTS_MAX),
        lockout_duration_seconds: clamp_spec(
            c.lockout_duration_seconds,
            LOCKOUT_DURATION_MIN,
            LOCKOUT_DURATION_MAX,
        ),
    }
}

/// A configuration is valid when validating it changes nothing.
pub open spec fn config_valid(c: ConfigView) -> bool {
    validated(c) == c
}

/// The default configuration.
pub open spec fn default_config() -> ConfigView {
    ConfigView {
        auto_lock_minutes: 15,
        clear_clipboard_seconds: 30,
        theme: "dark"@,
        language: "en"@,
        max_login_attempts: 5,
        lockout_duration_seconds: 300,
    }
}

/// `v` clamped to `lo..=hi`.
pub fn clamp_u32(v: u32, lo: u32, hi: u32) -> (r: u32)
    requires
        lo <= hi,
    ensures
        r == clamp_spec(v, lo, hi),
{
    if v < lo {
        lo
    } else if v > hi {
        hi
    } else {
        v
    }
}

impl Default for AppConfig {
    fn default() -> (c: Self)
        ensures
            c@ == default_config(),
    {
        AppConfig {
            auto_lock_minutes: 15,
            clear_clipboard_seconds: 30,
            theme: String::from_str("dark"),
            language: String::from_str("en"),
            max_login_attempts: 5,
            lockout_duration_seconds: 300,
        }
    }
}

impl AppConfig {
    /// Clamps every value to its safe range and replaces a blank theme with
    /// "dark" and a blank language with "en".
    pub fn validate(&mut self)
        ensures
            final(self)@ == validated(old(self)@),
    {
        self.auto_lock_minutes = clamp_u32(self.auto_lock_minutes, AUTO_LOCK_MIN, AUTO_LOCK_MAX);
        self.clear_clipboard_seconds = clamp_u32(
            self.clear_clipboard_seconds,
            CLIPBOARD_CLEAR_MIN,
            CLIPBOARD_CLEAR_MAX,
        );
        self.max_login_attempts = clamp_u32(
            self.max_login_attempts,
            MAX_LOGIN_ATTEMPTS_MIN,
            MAX_LOGIN_ATTEMPTS_MAX,
        );
        self.lockout_duration_seconds = clamp_u32(
            self.lockout_duration_seconds,
            LOCKOUT_DURATION_MIN,
            LOCKOUT_DURATION_MAX,
        );
        if is_blank(self.theme.as_str()) {
            self.theme = String::from_str("dark");
        }
        if is_blank(self.language.as_str()) {
            self.language = String::from_str("en");
        }
    }

    /// Whether every value is already within its range (validating would
    /// change nothing). Does not modify the configuration.
    pub fn is_valid(&self) -> (r: bool)
        ensures
            r == config_valid(self@),
    {
        proof {
            lemma_blank_not_default();
        }
        AUTO_LOCK_MIN <= self.auto_lock_minutes && self.auto_lock_minutes <= AUTO_LOCK_MAX
            && CLIPBOARD_CLEAR_MIN <= self.clear_clipboard_seconds && self.clear_clipboard_seconds
            <= CLIPBOARD_CLEAR_MAX && MAX_LOGIN_ATTEMPTS_MIN <= self.max_login_attempts
            && self.max_login_attempts <= MAX_LOGIN_ATTEMPTS_MAX && LOCKOUT_DURATION_MIN
            <= self.lockout_duration_seconds && self.lockout_duration_seconds <= LOCKOUT_DURATION_MAX
            && !is_blank(self.theme.as_str()) && !is_blank(self.language.as_str())
    }

    /// A configuration read back from storage, made safe: every value
    /// clamped to its range and blank texts replaced by their defaults.
    pub fn from_parsed(parsed: AppConfig) -> (c: AppConfig)
        ensures
            c@ == validated(parsed@),
    {
        let mut c = parsed;
        c.validate();
        c
    }

    /// The configuration in force, from what the application data
    /// directory holds: the defaults when no configuration was saved there,
    /// otherwise the saved configuration, validated. Reading the file and
    /// parsing its JSON is the caller's part; it reports a file that cannot
    /// be read or parsed as a configuration error.
    pub fn load(saved: Option<AppConfig>) -> (r: Result<AppConfig, KestrelError>)
        ensures
            r matches Ok(c) && c@ == loaded(opt_config_view(saved)),
    {
        match saved {
            Some(c) => Ok(Self::from_parsed(c)),
            None => {
                proof {
                    lemma_blank_not_default();
                }
                Ok(AppConfig::default())
            },
        }
    }

    /// Whether the configuration may be saved to the application data
    /// directory: an invalid one is refused with a configuration error.
    /// Writing the file is the caller's part, once this accepts.
    pub fn save(&self, app_data_dir: &PathBuf) -> (r: Result<(), KestrelError>)
        ensures
            r is Ok <==> config_valid(self@),
            r matches Err(e) ==> e is Config && e.message() == "Cannot save invalid configuration"@,
    {
        if !self.is_valid() {
            return Err(KestrelError::Config(String::from_str("Cannot save invalid configuration")));
        }
        Ok(())
    }
}

/// The view of an optional configuration.
pub open spec fn opt_config_view(o: Option<AppConfig>) -> Option<ConfigView> {
    match o {
        Some(c) => Some(c@),
        None => None,
    }
}

/// The configuration in force given what was saved, if anything.
pub open spec fn loaded(saved: Option<ConfigView>) -> ConfigView {
    match saved {
        Some(c) => validated(c),
        None => default_config(),
    }
}

/// What `save` accepted comes back unchanged from `load`, and with nothing
/// saved `load` gives the defaults.
pub proof fn law_saved_config_loads_back(c: ConfigView)
    ensures
        config_valid(c) ==> loaded(Some(c)) == c,
        loaded(None) == default_config(),
{
}

proof fn lemma_blank_not_default()
    ensures
        !is_blank_spec("dark"@),
        !is_blank_spec("en"@),
{
    reveal_strlit("dark");
    reveal_strlit("en");
    assert(!crate::text::is_whitespace_spec("dark"@[0]));
    assert(!crate::text::is_whitespace_spec("en"@[0]));
}

proof fn lemma_default_valid()
    ensures
        config_valid(default_config()),
{
    lemma_blank_not_default();
}

/// Validating a configuration yields a valid one.
pub proof fn law_validated_is_valid(c: ConfigView)
    ensures
        config_valid(validated(c)),
{
    lemma_blank_not_default();
}

/// Validating twice is the same as validating once.
pub proof fn law_validate_idempotent(c: ConfigView)
    ensures
        validated(validated(c)) == validated(c),
{
    lemma_blank_not_default();
}

/// The default configuration is valid.
pub proof fn law_default_is_valid()
    ensures
        config_valid(default_config()),
{
    lemma_default_valid();
}

} // verus!
