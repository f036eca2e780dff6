//! Reading and partially updating the application settings.
//!
//! An update is checked as a whole before anything changes: the theme must
//! be "dark", "light" or "system", the language at most 10 bytes, the
//! auto-lock 1..=480 minutes and the clipboard timeout 5..=300 seconds.
//! Accepted fields are applied and the configuration is validated again.

use vstd::prelude::*;
use vstd::string::*;
use crate::commands::types::{checked, string_field_failure, validate_field};
use crate::config::{validated, AppConfig, ConfigView};
use crate::error::KestrelError;
use crate::scanner::password_strength::texts;
use crate::text::str_eq;
use vstd::utf8::encode_utf8;

verus! {

/// The settings shown to the user.
#[derive(Clone, Debug)]
pub struct AppSettings {
    /// Minutes of inactivity before auto-lock.
    pub auto_lock_minutes: u32,
    /// UI theme.
    pub theme: String,
    /// UI language.
    pub language: String,
    /// Seconds before the clipboard is cleared.
    pub clear_clipboard_seconds: u32,
}

/// A partial update: only the fields that are present change.
#[derive(Clone, Debug)]
pub struct SettingsUpdate {
    /// New auto-lock duration in minutes.
    pub auto_lock_minutes: Option<u32>,
    /// New theme.
    pub theme: Option<String>,
    /// New language.
    pub language: Option<String>,
    /// New clipboard timeout in seconds.
    pub clear_clipboard_seconds: Option<u32>,
}

/// The audit record of an accepted settings update.
#[derive(Clone, Debug)]
pub struct SettingsChanged {
    /// The names of the settings the update wrote, in the order
    /// auto-lock, theme, language, clipboard timeout.
    pub changed_fields: Vec<String>,
}

/// A one-name list when the field is present, else the empty list.
pub open spec fn field_if(present: bool, name: Seq<char>) -> Seq<Seq<char>> {
    if present {
        seq![name]
    } else {
        Seq::empty()
    }
}

/// The names of the settings an update writes.
pub open spec fn changed_fields(u: SettingsUpdate) -> Seq<Seq<char>> {
    field_if(u.auto_lock_minutes is Some, "auto_lock_minutes"@)
        + field_if(u.theme is Some, "theme"@)
        + field_if(u.language is Some, "language"@)
        + field_if(u.clear_clipboard_seconds is Some, "clear_clipboard_seconds"@)
}

/// The names of the settings an update writes, as the audit record holds them.
fn changed_field_names(update: &SettingsUpdate) -> (v: Vec<String>)
    ensures
        texts(v@) == changed_fields(*update),
{
    let mut v: Vec<String> = Vec::new();
    let ghost mut expected: Seq<Seq<char>> = Seq::empty();
    if update.auto_lock_minutes.is_some() {
        v.push(String::from_str("auto_lock_minutes"));
    }
    proof {
        expected = field_if(update.auto_lock_minutes is Some, "auto_lock_minutes"@);
        assert(texts(v@) =~= expected);
    }
    if update.theme.is_some() {
        v.push(String::from_str("theme"));
    }
    proof {
        expected = expected + field_if(update.theme is Some, "theme"@);
        assert(texts(v@) =~= expected);
    }
    if update.language.is_some() {
        v.push(String::from_str("language"));
    }
    proof {
        expected = expected + field_if(update.language is Some, "language"@);
        assert(texts(v@) =~= expected);
    }
    if update.clear_clipboard_seconds.is_some() {
        v.push(String::from_str("clear_clipboard_seconds"));
    }
    proof {
        expected = expected + field_if(update.clear_clipboard_seconds is Some, "clear_clipboard_seconds"@);
        assert(texts(v@) =~= expected);
    }
    v
}

/// The text of an optional string.
pub open spec fn opt_text(o: Option<String>) -> Option<Seq<char>> {
    match o {
        Some(s) => Some(s@),
        None => None,
    }
}

/// Whether the settings show exactly these configuration values.
pub open spec fn shows(s: AppSettings, c: ConfigView) -> bool {
    &&& s.auto_lock_minutes == c.auto_lock_minutes
    &&& s.theme@ == c.theme
    &&& s.language@ == c.language
    &&& s.clear_clipboard_seconds == c.clear_clipboard_seconds
}

/// The themes the user may choose.
pub open spec fn is_known_theme(t: Seq<char>) -> bool {
    t == "dark"@ || t == "light"@ || t == "system"@
}

/// Why an update is refused, if it is: the first failing check of theme,
/// language, auto-lock and clipboard timeout, in that order.
pub open spec fn update_failure(u: SettingsUpdate) -> Option<Seq<char>> {
    let theme_field = match u.theme {
        Some(t) => string_field_failure(t@, encode_utf8(t@).len(), 0, 20, "theme"@, true),
        None => None,
    };
    let language_field = match u.language {
        Some(l) => string_field_failure(l@, encode_utf8(l@).len(), 0, 10, "language"@, true),
        None => None,
    };
    if theme_field is Some {
        theme_field
    } else if u.theme matches Some(t) && !is_known_theme(t@) {
        Some("Theme must be one of: dark, light, system"@)
    } else if language_field is Some {
        language_field
    } else if u.auto_lock_minutes matches Some(m) && (m < 1 || m > 480) {
        Some("Auto-lock must be between 1 and 480 minutes"@)
    } else if u.clear_clipboard_seconds matches Some(s) && (s < 5 || s > 300) {
        Some("Clear clipboard must be between 5 and 300 seconds"@)
    } else {
        None
    }
}

/// The configuration with the update's present fields written over it.
pub open spec fn applied(c: ConfigView, u: SettingsUpdate) -> ConfigView {
    ConfigView {
        auto_lock_minutes: match u.auto_lock_minutes {
            Some(m) => m,
            None => c.auto_lock_minutes,
        },
        clear_clipboard_seconds: match u.clear_clipboard_seconds {
            Some(s) => s,
            None => c.clear_clipboard_seconds,
        },
        theme: match u.theme {
            Some(t) => t@,
            None => c.theme,
        },
        language: match u.language {
            Some(l) => l@,
            None => c.language,
        },
        ..c
    }
}

/// The settings view of a configuration.
pub fn settings_of(config: &AppConfig) -> (s: AppSettings)
    ensures
        shows(s, config@),
{
    AppSettings {
        auto_lock_minutes: config.auto_lock_minutes,
        theme: config.theme.clone(),
        language: config.language.clone(),
        clear_clipboard_seconds: config.clear_clipboard_seconds,
    }
}

/// Checks an update and, when it passes, applies it to the configuration,
/// validates the result, appends one [`SettingsChanged`] record naming the
/// settings written to the audit trail and returns the settings now in
/// force. A refused update leaves the configuration and the audit trail
/// unchanged.
pub fn apply_settings_update(
    config: &mut AppConfig,
    update: &SettingsUpdate,
    audit: &mut Vec<SettingsChanged>,
) -> (r: Result<AppSettings, KestrelError>)
    ensures
        checked(r, update_failure(*update)),
        update_failure(*update) is Some ==> final(config)@ == old(config)@,
        update_failure(*update) is Some ==> final(audit)@ == old(audit)@,
        update_failure(*update) is None ==> final(config)@ == validated(applied(old(config)@, *update)),
        update_failure(*update) is None ==> final(audit)@ == old(audit)@.push(final(audit)@.last()),
        update_failure(*update) is None ==> texts(final(audit)@.last().changed_fields@) == changed_fields(*update),
        r matches Ok(s) ==> shows(s, final(config)@),
{
    match &update.theme {
        Some(t) => {
            validate_field(t.as_str(), 20, "theme")?;
            if !(str_eq(t.as_str(), "dark") || str_eq(t.as_str(), "light") || str_eq(t.as_str(), "system")) {
                return Err(KestrelError::Validation(String::from_str("Theme must be one of: dark, light, system")));
            }
        },
        None => {},
    }
    match &update.language {
        Some(l) => {
            validate_field(l.as_str(), 10, "language")?;
        },
        None => {},
    }
    match update.auto_lock_minutes {
        Some(m) => {
            if m < 1 || m > 480 {
                return Err(KestrelError::Validation(String::from_str("Auto-lock must be between 1 and 480 minutes")));
            }
        },
        None => {},
    }
    match update.clear_clipboard_seconds {
        Some(s) => {
            if s < 5 || s > 300 {
                return Err(
                    KestrelError::Validation(String::from_str("Clear clipboard must be between 5 and 300 seconds")),
                );
            }
        },
        None => {},
    }
    match update.auto_lock_minutes {
        Some(m) => {
            config.auto_lock_minutes = m;
        },
        None => {},
    }
    match &update.theme {
        Some(t) => {
            config.theme = t.clone();
        },
        None => {},
    }
    match &update.language {
        Some(l) => {
            config.language = l.clone();
        },
        None => {},
    }
    match update.clear_clipboard_seconds {
        Some(s) => {
            config.clear_clipboard_seconds = s;
        },
        None => {},
    }
    config.validate();
    let changed_fields = changed_field_names(update);
    audit.push(SettingsChanged { changed_fields });
    Ok(settings_of(config))
}


/// An accepted update always leaves a valid configuration in force, and a
/// refused one leaves the configuration as it was (see
/// [`apply_settings_update`]); accepted values within their ranges are kept
/// exactly.
pub proof fn law_accepted_update_is_valid_and_kept(c: ConfigView, u: SettingsUpdate)
    requires
        update_failure(u) is None,
    ensures
        crate::config::config_valid(validated(applied(c, u))),
        u.auto_lock_minutes matches Some(m) ==> validated(applied(c, u)).auto_lock_minutes == m,
        u.clear_clipboard_seconds matches Some(x) ==> validated(applied(c, u)).clear_clipboard_seconds == x,
        u.theme matches Some(t) ==> validated(applied(c, u)).theme == t@,
{
    crate::config::law_validated_is_valid(applied(c, u));
    reveal_strlit("dark");
    reveal_strlit("light");
    reveal_strlit("system");
    if u.theme is Some {
        let t = u.theme->0@;
        if crate::text::is_blank_spec(t) {
            if t == "dark"@ {
                assert(!crate::text::is_whitespace_spec(t[0]));
            } else if t == "light"@ {
                assert(!crate::text::is_whitespace_spec(t[0]));
            } else {
                assert(!crate::text::is_whitespace_spec(t[0]));
            }
        }
    }
}

} // verus!
