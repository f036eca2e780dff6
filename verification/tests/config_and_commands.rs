use kestrel_vault::commands::settings::{apply_settings_update, settings_of, SettingsChanged, SettingsUpdate};
use kestrel_vault::commands::types::{
    validate_field, validate_no_null_bytes, validate_not_blank, validate_string_field, validate_string_length,
    validate_uuid, CommandResult, PaginatedResponse, PaginationRequest, ValidationRules,
};
use kestrel_vault::config::{
    AppConfig, AUTO_LOCK_MAX, AUTO_LOCK_MIN, CLIPBOARD_CLEAR_MAX, CLIPBOARD_CLEAR_MIN, LOCKOUT_DURATION_MAX,
    LOCKOUT_DURATION_MIN, MAX_LOGIN_ATTEMPTS_MAX,
};
use kestrel_vault::error::KestrelError;
use std::path::PathBuf;
use uuid::Uuid;

fn message(r: Result<(), KestrelError>) -> String {
    match r {
        Err(KestrelError::Validation(m)) => m,
        other => panic!("expected a validation error, got {:?}", other),
    }
}

// ── configuration ──

#[test]
fn default_config_is_valid() {
    let config = AppConfig::default();
    assert!(config.is_valid());
}

#[test]
fn validate_clamps_out_of_range_values() {
    let mut config = AppConfig {
        auto_lock_minutes: 0,
        clear_clipboard_seconds: 1,
        max_login_attempts: 100,
        lockout_duration_seconds: 5,
        ..Default::default()
    };
    config.validate();
    assert_eq!(config.auto_lock_minutes, AUTO_LOCK_MIN);
    assert_eq!(config.clear_clipboard_seconds, CLIPBOARD_CLEAR_MIN);
    assert_eq!(config.max_login_attempts, MAX_LOGIN_ATTEMPTS_MAX);
    assert_eq!(config.lockout_duration_seconds, LOCKOUT_DURATION_MIN);
}

#[test]
fn validate_clamps_high_values() {
    let mut config = AppConfig {
        auto_lock_minutes: 9999,
        clear_clipboard_seconds: 9999,
        lockout_duration_seconds: 9999,
        ..Default::default()
    };
    config.validate();
    assert_eq!(config.auto_lock_minutes, AUTO_LOCK_MAX);
    assert_eq!(config.clear_clipboard_seconds, CLIPBOARD_CLEAR_MAX);
    assert_eq!(config.lockout_duration_seconds, LOCKOUT_DURATION_MAX);
}

#[test]
fn empty_theme_defaults_to_dark() {
    let mut config = AppConfig { theme: "  ".to_string(), ..Default::default() };
    config.validate();
    assert_eq!(config.theme, "dark");
}

#[test]
fn empty_language_defaults_to_en() {
    let mut config = AppConfig { language: "".to_string(), ..Default::default() };
    config.validate();
    assert_eq!(config.language, "en");
}

#[test]
fn save_rejects_invalid_config() {
    let config = AppConfig { auto_lock_minutes: 0, ..Default::default() };
    let result = config.save(&PathBuf::from("/tmp"));
    assert!(result.is_err());
}

#[test]
fn settings_defaults_match_config() {
    let config = AppConfig::default();
    let resp = settings_of(&config);
    assert_eq!(resp.auto_lock_minutes, 15);
    assert_eq!(resp.theme, "dark");
    assert_eq!(resp.language, "en");
    assert_eq!(resp.clear_clipboard_seconds, 30);
}

#[test]
fn validate_is_idempotent_and_makes_valid() {
    let mut c = AppConfig {
        auto_lock_minutes: 0,
        theme: "\t".into(),
        language: "fr".into(),
        max_login_attempts: 0,
        ..Default::default()
    };
    assert!(!c.is_valid());
    c.validate();
    let once = c.clone();
    assert!(c.is_valid());
    c.validate();
    assert_eq!(c, once);
    assert_eq!(c.language, "fr");
    assert_eq!(c.max_login_attempts, 1);
}

#[test]
fn load_gives_defaults_and_save_accepts_valid() {
    let c = AppConfig::load(None).unwrap();
    assert_eq!(c, AppConfig::default());
    assert!(c.save(&PathBuf::from("/tmp")).is_ok());
    match (AppConfig { theme: String::new(), ..Default::default() }).save(&PathBuf::from("/tmp")) {
        Err(KestrelError::Config(m)) => assert_eq!(m, "Cannot save invalid configuration"),
        other => panic!("unexpected {:?}", other),
    }
}

// ── settings updates ──

fn update() -> SettingsUpdate {
    SettingsUpdate { auto_lock_minutes: None, theme: None, language: None, clear_clipboard_seconds: None }
}

#[test]
fn settings_update_applies_present_fields() {
    let mut c = AppConfig::default();
    let mut audit: Vec<SettingsChanged> = Vec::new();
    let s = apply_settings_update(
        &mut c,
        &SettingsUpdate { auto_lock_minutes: Some(30), theme: Some("light".into()), ..update() },
        &mut audit,
    )
    .unwrap();
    assert_eq!(s.auto_lock_minutes, 30);
    assert_eq!(s.theme, "light");
    assert_eq!(s.language, "en");
    assert_eq!(c.auto_lock_minutes, 30);
    assert_eq!(c.clear_clipboard_seconds, 30);
}

#[test]
fn settings_update_rejects_and_leaves_config_unchanged() {
    let mut c = AppConfig::default();
    let before = c.clone();
    let mut audit: Vec<SettingsChanged> = Vec::new();
    let r = apply_settings_update(&mut c, &SettingsUpdate { theme: Some("neon".into()), ..update() }, &mut audit);
    assert!(matches!(r, Err(KestrelError::Validation(ref m)) if m == "Theme must be one of: dark, light, system"));
    let r = apply_settings_update(&mut c, &SettingsUpdate { auto_lock_minutes: Some(481), ..update() }, &mut audit);
    assert!(matches!(r, Err(KestrelError::Validation(ref m)) if m == "Auto-lock must be between 1 and 480 minutes"));
    let r =
        apply_settings_update(&mut c, &SettingsUpdate { clear_clipboard_seconds: Some(4), ..update() }, &mut audit);
    assert!(
        matches!(r, Err(KestrelError::Validation(ref m)) if m == "Clear clipboard must be between 5 and 300 seconds")
    );
    let r =
        apply_settings_update(&mut c, &SettingsUpdate { language: Some("abcdefghijk".into()), ..update() }, &mut audit);
    assert!(matches!(r, Err(KestrelError::Validation(ref m)) if m == "language must be at most 10 characters"));
    assert_eq!(c, before);
    assert!(audit.is_empty());
}

#[test]
fn settings_update_blank_language_falls_back_to_en() {
    let mut c = AppConfig { language: "de".into(), ..Default::default() };
    let mut audit: Vec<SettingsChanged> = Vec::new();
    let s =
        apply_settings_update(&mut c, &SettingsUpdate { language: Some("  ".into()), ..update() }, &mut audit).unwrap();
    assert_eq!(s.language, "en");
}

#[test]
fn settings_update_records_one_audit_event_with_the_written_fields() {
    let mut c = AppConfig::default();
    let mut audit: Vec<SettingsChanged> = Vec::new();
    apply_settings_update(
        &mut c,
        &SettingsUpdate { auto_lock_minutes: Some(10), clear_clipboard_seconds: Some(60), ..update() },
        &mut audit,
    )
    .unwrap();
    assert_eq!(audit.len(), 1);
    assert_eq!(audit[0].changed_fields, vec!["auto_lock_minutes".to_string(), "clear_clipboard_seconds".to_string()]);
    apply_settings_update(&mut c, &SettingsUpdate { theme: Some("system".into()), language: Some("fr".into()), ..update() }, &mut audit)
        .unwrap();
    assert_eq!(audit.len(), 2);
    assert_eq!(audit[1].changed_fields, vec!["theme".to_string(), "language".to_string()]);
    assert_eq!(audit[0].changed_fields.len(), 2);
}

// ── validation helpers ──

#[test]
fn validate_no_null_bytes_rejects() {
    assert!(validate_no_null_bytes("hello\0world", "test").is_err());
}

#[test]
fn validate_no_null_bytes_allows() {
    assert!(validate_no_null_bytes("hello world", "test").is_ok());
}

#[test]
fn validate_string_length_rejects_short() {
    assert!(validate_string_length("ab", 3, 10, "test").is_err());
}

#[test]
fn validate_string_length_rejects_long() {
    assert!(validate_string_length("abcdefghijk", 3, 10, "test").is_err());
}

#[test]
fn validate_string_length_allows_valid() {
    assert!(validate_string_length("abcde", 3, 10, "test").is_ok());
}

#[test]
fn validate_uuid_rejects_invalid() {
    assert!(validate_uuid("not-a-uuid", "test").is_err());
}

#[test]
fn validate_uuid_allows_valid() {
    let uuid = Uuid::new_v4();
    assert!(validate_uuid(&uuid.to_string(), "test").is_ok());
}

#[test]
fn validate_not_blank_rejects_whitespace() {
    assert!(validate_not_blank("   ", "test").is_err());
}

#[test]
fn types_pagination_default() {
    let p = PaginationRequest::default();
    assert_eq!(p.limit, 50);
    assert_eq!(p.offset, 0);
}

#[test]
fn pagination_validates_limit() {
    let p = PaginationRequest { limit: 0, offset: 0 };
    assert!(p.validate().is_err());
}

#[test]
fn validation_rules_constants() {
    assert_eq!(ValidationRules::MIN_MASTER_PASSWORD_LEN, 8);
    assert_eq!(ValidationRules::MAX_TITLE_LEN, 256);
}

#[test]
fn validation_messages_are_exact() {
    assert_eq!(message(validate_no_null_bytes("a\0", "Title")), "Title must not contain null bytes");
    assert_eq!(message(validate_string_length("ab", 3, 10, "Name")), "Name must be at least 3 characters");
    assert_eq!(message(validate_string_length("abcdefghijk", 3, 10, "Name")), "Name must be at most 10 characters");
    assert_eq!(message(validate_not_blank("", "Query")), "Query must not be blank");
    match validate_uuid("123", "folder_id") {
        Err(KestrelError::Validation(m)) => assert_eq!(m, "folder_id must be a valid UUID"),
        other => panic!("unexpected {:?}", other),
    }
}

#[test]
fn string_length_counts_bytes() {
    assert!(validate_string_length("éé", 0, 3, "x").is_err());
    assert!(validate_string_length("éé", 0, 4, "x").is_ok());
}

#[test]
fn string_field_checks_in_order() {
    assert_eq!(message(validate_string_field("  ", 1, 5, "F", false)), "F must not be blank");
    assert!(validate_string_field("", 3, 5, "F", true).is_ok());
    assert_eq!(message(validate_string_field("a\0", 0, 1, "F", true)), "F must not contain null bytes");
    assert_eq!(message(validate_string_field("abcdef", 0, 5, "F", true)), "F must be at most 5 characters");
    assert!(validate_field("", 3, "Title").is_ok());
    assert_eq!(message(validate_field("abcd", 3, "Title")), "Title must be at most 3 characters");
}

#[test]
fn pagination_request_bounds() {
    let ok = PaginationRequest { limit: 1000, offset: 0 };
    assert!(ok.validate().is_ok());
    assert_eq!(message(PaginationRequest { limit: 1001, offset: 0 }.validate()), "Limit too large (max 1000)");
    assert_eq!(message(PaginationRequest { limit: 0, offset: 0 }.validate()), "Limit must be at least 1");
    assert_eq!(message(PaginationRequest { limit: 5, offset: -1 }.validate()), "Offset must be non-negative");
}

#[test]
fn uuid_forms_accepted() {
    let s = "67e55044-10b1-426f-9247-bb680e5fe0c8";
    assert!(validate_uuid(s, "id").is_ok());
    assert!(validate_uuid("67e5504410b1426f9247bb680e5fe0c8", "id").is_ok());
    assert!(validate_uuid("{67e55044-10b1-426f-9247-bb680e5fe0c8}", "id").is_ok());
    assert!(validate_uuid("URN:uuid:67e55044-10b1-426f-9247-bb680e5fe0c8", "id").is_ok());
    assert!(validate_uuid("67e55044-10b1-426f-9247-bb680e5fe0cg", "id").is_err());
    assert!(validate_uuid("67e55044x10b1-426f-9247-bb680e5fe0c8", "id").is_err());
    assert_eq!(validate_uuid(s, "id").unwrap().to_string(), s);
}

#[test]
fn command_result_variants() {
    match CommandResult::ok(42u32) {
        CommandResult::Success { data } => assert_eq!(data, 42),
        other => panic!("unexpected {:?}", other),
    }
    match CommandResult::<u32>::err("bad input".to_string()) {
        CommandResult::Failure { error } => assert_eq!(error, "bad input"),
        other => panic!("unexpected {:?}", other),
    }
    let page = PaginatedResponse { items: vec![1, 2], total_count: 5, has_more: true };
    assert_eq!(page.items.len(), 2);
}

#[test]
fn saved_config_loads_back() {
    let saved = AppConfig {
        auto_lock_minutes: 45,
        clear_clipboard_seconds: 60,
        theme: "light".to_string(),
        language: "de".to_string(),
        max_login_attempts: 7,
        lockout_duration_seconds: 900,
    };
    assert!(saved.save(&PathBuf::from("/tmp")).is_ok());
    assert_eq!(AppConfig::load(Some(saved.clone())).unwrap(), saved);
}

#[test]
fn loaded_config_is_clamped() {
    let parsed = AppConfig { auto_lock_minutes: 0, theme: "  ".to_string(), ..Default::default() };
    let c = AppConfig::load(Some(parsed.clone())).unwrap();
    assert_eq!(c.auto_lock_minutes, AUTO_LOCK_MIN);
    assert_eq!(c.theme, "dark");
    assert_eq!(AppConfig::from_parsed(parsed), c);
}
