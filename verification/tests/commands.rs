use kestrel_vault::commands::auth::AuthGate;
use kestrel_vault::commands::crypto::{crypto_decrypt_data, crypto_derive_key, crypto_encrypt_data};
use kestrel_vault::crypto::kdf_params::{KdfParams, MIN_MEMORY_COST_KIB};
use kestrel_vault::commands::input::{
    FolderChange,
    validate_entry_update, validate_list_request, validate_new_entry, validate_new_folder, validate_new_note,
    validate_note_update, validate_search_request,
};
use kestrel_vault::commands::types::validate_uuid;
use kestrel_vault::error::KestrelError;
use kestrel_vault::scanner::{ScanResult, ThreatLevel};
use kestrel_vault::time::Timestamp;

const ID: &str = "550e8400-e29b-41d4-a716-446655440000";

fn at(secs: i64) -> Timestamp {
    Timestamp { secs, nanos: 0 }
}

fn validation(r: Result<(), KestrelError>) -> String {
    match r {
        Err(KestrelError::Validation(m)) => m,
        other => panic!("expected a validation error, got {:?}", other),
    }
}

fn unauthorized(r: Result<(), KestrelError>) -> String {
    match r {
        Err(KestrelError::Unauthorized(m)) => m,
        other => panic!("expected an unauthorized error, got {:?}", other),
    }
}

// ── authentication gate ──

/// A gate with the cheapest accepted key-derivation costs, so that tests
/// stay fast.
fn gate() -> AuthGate {
    AuthGate::with_kdf_params(KdfParams::custom(MIN_MEMORY_COST_KIB, 1, 1).unwrap())
}

#[test]
fn fresh_gate_is_locked_and_uninitialized() {
    let gate = AuthGate::new();
    assert!(!gate.is_vault_initialized());
    assert_eq!(unauthorized(gate.require_unlocked()), "Vault is locked. Please unlock first.");
    let d = AuthGate::default();
    assert!(!d.is_vault_initialized());
}

#[test]
fn initialize_validates_password_and_hint() {
    let mut gate = gate();
    assert_eq!(
        validation(gate.initialize_vault_at("short", None, at(0))),
        "Master password must be at least 8 characters"
    );
    assert_eq!(validation(gate.initialize_vault_at("         ", None, at(0))), "Master password must not be blank");
    assert_eq!(
        validation(gate.initialize_vault_at("pass\0word", None, at(0))),
        "Master password must not contain null bytes"
    );
    let long_hint = "h".repeat(101);
    assert_eq!(
        validation(gate.initialize_vault_at("correct horse", Some(long_hint.as_str()), at(0))),
        "Password hint must be at most 100 characters"
    );
    assert!(!gate.is_vault_initialized());
    assert!(gate.initialize_vault_at("correct horse", Some(""), at(0)).is_ok());
    assert!(gate.is_vault_initialized());
}

#[test]
fn password_change_rewraps_the_same_data_key() {
    let mut gate = gate();
    gate.initialize_vault_at("old password", None, at(0)).unwrap();
    assert!(gate.data_key().is_none());
    gate.unlock_at("old password", at(1)).unwrap();
    let dek = gate.data_key().unwrap().key;
    gate.change_password_at("old password", "new password", at(2)).unwrap();
    assert_eq!(gate.data_key().unwrap().key, dek);
    gate.lock();
    assert!(gate.data_key().is_none());
    assert_eq!(unauthorized(gate.unlock_at("old password", at(3))), "Incorrect master password");
    assert!(gate.data_key().is_none());
    gate.unlock_at("new password", at(4)).unwrap();
    assert_eq!(gate.data_key().unwrap().key, dek);
}

#[test]
fn each_vault_gets_its_own_data_key() {
    let mut a = gate();
    let mut b = gate();
    a.initialize_vault_at("same password", None, at(0)).unwrap();
    b.initialize_vault_at("same password", None, at(0)).unwrap();
    a.unlock_at("same password", at(1)).unwrap();
    b.unlock_at("same password", at(1)).unwrap();
    assert_ne!(a.data_key().unwrap().key, b.data_key().unwrap().key);
}

#[test]
fn hint_is_kept_with_the_vault() {
    let mut gate = gate();
    assert_eq!(gate.password_hint(), None);
    gate.initialize_vault_at("old password", Some("first pet"), at(0)).unwrap();
    assert_eq!(gate.password_hint(), Some("first pet"));
    gate.unlock_at("old password", at(1)).unwrap();
    gate.change_password_at("old password", "new password", at(2)).unwrap();
    gate.lock();
    assert_eq!(gate.password_hint(), Some("first pet"));
    let mut plain = self::gate();
    plain.initialize_vault_at("old password", None, at(0)).unwrap();
    assert_eq!(plain.password_hint(), None);
}

#[test]
fn initialize_only_once() {
    let mut gate = gate();
    assert!(gate.initialize_vault_at("correct horse", None, at(0)).is_ok());
    match gate.initialize_vault_at("correct horse", None, at(1)) {
        Err(KestrelError::Vault(m)) => assert_eq!(m, "Vault has already been initialized"),
        other => panic!("unexpected {:?}", other),
    }
}

#[test]
fn unlock_requires_initialized_vault() {
    let mut gate = gate();
    match gate.unlock_at("correct horse", at(0)) {
        Err(KestrelError::Vault(m)) => assert_eq!(m, "Vault has not been initialized"),
        other => panic!("unexpected {:?}", other),
    }
    assert!(gate.require_unlocked().is_err());
}

#[test]
fn unlock_then_lock() {
    let mut gate = gate();
    gate.initialize_vault_at("correct horse", None, at(0)).unwrap();
    assert!(gate.unlock_at("correct horse", at(1)).is_ok());
    assert!(gate.require_unlocked().is_ok());
    gate.lock();
    assert!(gate.require_unlocked().is_err());
    assert!(gate.is_vault_initialized());
}

#[test]
fn unlock_with_null_byte_counts_against_rate_limit() {
    let mut gate = gate();
    gate.initialize_vault_at("correct horse", None, at(0)).unwrap();
    for i in 0..5 {
        assert_eq!(
            validation(gate.unlock_at("bad\0", at(10 + i))),
            "Master password must not contain null bytes"
        );
    }
    assert_eq!(
        unauthorized(gate.unlock_at("correct horse", at(20))),
        "Rate limit exceeded for Login. Please try again later."
    );
    // once the window has passed the attempts expire
    assert!(gate.unlock_at("correct horse", at(20 + 300)).is_ok());
}

#[test]
fn successful_unlock_resets_login_limit() {
    let mut gate = gate();
    gate.initialize_vault_at("correct horse", None, at(0)).unwrap();
    for i in 0..4 {
        assert!(gate.unlock_at("bad\0", at(i)).is_err());
    }
    assert!(gate.unlock_at("correct horse", at(5)).is_ok());
    gate.lock();
    for i in 0..4 {
        assert!(gate.unlock_at("bad\0", at(6 + i)).is_err());
    }
    assert!(gate.unlock_at("correct horse", at(11)).is_ok());
}

#[test]
fn change_password_rules() {
    let mut gate = gate();
    assert_eq!(
        unauthorized(gate.change_password_at("old password", "new password", at(0))),
        "Vault is locked. Please unlock first."
    );
    gate.initialize_vault_at("old password", None, at(0)).unwrap();
    gate.unlock_at("old password", at(1)).unwrap();
    assert_eq!(
        validation(gate.change_password_at("old\0", "new password", at(2))),
        "Current password must not contain null bytes"
    );
    assert_eq!(
        validation(gate.change_password_at("old password", "short", at(3))),
        "New password must be at least 8 characters"
    );
    assert_eq!(
        validation(gate.change_password_at("old password", "old password", at(4))),
        "New password must be different from current password"
    );
    assert!(gate.change_password_at("old password", "new password", at(5)).is_ok());
}

// ── command input checks ──

#[test]
fn new_entry_fields_checked_in_order() {
    let tags = vec!["work".to_string()];
    assert!(validate_new_entry("Mail", "me", "pw", Some("https://x"), None, Some(ID), &tags).is_ok());
    assert_eq!(validation(validate_new_entry("Mail", "me", "", None, None, None, &tags)), "Password is required");
    let long_title = "t".repeat(257);
    assert_eq!(
        validation(validate_new_entry(&long_title, "me", "", None, None, None, &tags)),
        "Title must be at most 256 characters"
    );
    assert_eq!(
        validation(validate_new_entry("Mail", "me", "pw", None, None, Some("nope"), &tags)),
        "folder_id must be a valid UUID"
    );
    let bad_tags = vec!["ok".to_string(), "x".repeat(65)];
    assert_eq!(
        validation(validate_new_entry("Mail", "me", "pw", None, None, None, &bad_tags)),
        "Tag must be at most 64 characters"
    );
    let long_pw = "p".repeat(1025);
    assert_eq!(
        validation(validate_new_entry("Mail", "me", &long_pw, None, None, None, &tags)),
        "Password must be at most 1024 characters"
    );
    assert_eq!(
        validation(validate_new_entry("Mail", "me", "pw", Some("a\0"), None, None, &tags)),
        "URL must not contain null bytes"
    );
}

#[test]
fn entry_update_fields_checked_in_order() {
    assert!(validate_entry_update(ID, None, None, None, None, None, None, None).is_ok());
    assert_eq!(
        validation(validate_entry_update("nope", Some(""), None, Some(""), None, None, None, None)),
        "id must be a valid UUID"
    );
    assert_eq!(
        validation(validate_entry_update(ID, None, None, Some(""), None, None, None, None)),
        "Password cannot be empty"
    );
    let long_notes = "n".repeat(10001);
    assert_eq!(
        validation(validate_entry_update(ID, None, None, None, None, Some(long_notes.as_str()), None, None)),
        "Notes must be at most 10000 characters"
    );
    let tags = vec!["a\0".to_string()];
    assert_eq!(
        validation(validate_entry_update(ID, None, None, None, None, None, None, Some(tags.as_slice()))),
        "Tag must not contain null bytes"
    );
}

#[test]
fn note_checks() {
    let tags: Vec<String> = vec![];
    assert!(validate_new_note("Title", "content", None, &tags).is_ok());
    assert_eq!(validation(validate_new_note("Title", "", None, &tags)), "Content is required");
    let long_content = "c".repeat(100_001);
    assert_eq!(
        validation(validate_new_note("Title", &long_content, None, &tags)),
        "Content must be at most 100000 characters"
    );
    assert!(validate_note_update(ID, Some("t"), Some(""), Some(ID), None).is_ok());
    assert_eq!(
        validation(validate_note_update(ID, None, None, Some("x"), None).map(|_| ())),
        "folder_id must be a valid UUID"
    );
}

#[test]
fn folder_checks() {
    assert!(validate_new_folder("Work", None).is_ok());
    assert!(validate_new_folder("Work", Some(ID)).is_ok());
    let long_name = "f".repeat(129);
    assert_eq!(validation(validate_new_folder(&long_name, None)), "Folder name must be at most 128 characters");
    assert_eq!(validation(validate_new_folder("Work", Some("root"))), "parent_id must be a valid UUID");
}

// ── scan results ──

#[test]
fn scan_result_constructors() {
    let ok = ScanResult::ok();
    assert_eq!(ok.threat_level, ThreatLevel::NoThreat);
    assert_eq!(ok.description, "No issues found");
    assert_eq!(ok.recommendation, "");
    assert!(ok.details.is_null());
    let r = ScanResult::new(ThreatLevel::High, "Weak".to_string(), "Change it".to_string());
    assert_eq!(r.threat_level, ThreatLevel::High);
    assert_eq!(r.description, "Weak");
    assert_eq!(r.recommendation, "Change it");
    assert_eq!(ThreatLevel::Critical.to_string(), "critical");
    assert_eq!(ThreatLevel::NoThreat.to_string(), "none");
    assert!(ThreatLevel::Low < ThreatLevel::High);
}

#[test]
fn listing_pages_are_settled() {
    assert_eq!(validate_list_request(None, None, None).unwrap(), (50, 0));
    assert_eq!(validate_list_request(Some(ID), Some(500), Some(-3)).unwrap(), (200, 0));
    assert_eq!(validate_list_request(None, Some(10), Some(40)).unwrap(), (10, 40));
    // a negative limit is passed on as it is
    assert_eq!(validate_list_request(None, Some(-1), None).unwrap(), (-1, 0));
    assert_eq!(
        validation(validate_list_request(Some("x"), None, None).map(|_| ())),
        "folder_id must be a valid UUID"
    );
}

#[test]
fn search_requests_are_settled() {
    assert_eq!(validate_search_request("mail", None).unwrap(), 50);
    assert_eq!(validate_search_request("mail", Some(1000)).unwrap(), 200);
    let long = "q".repeat(257);
    assert_eq!(validation(validate_search_request(&long, None).map(|_| ())), "Query must be at most 256 characters");
    assert_eq!(validation(validate_search_request("a\0", None).map(|_| ())), "Query must not contain null bytes");
}

#[test]
fn note_update_settles_folder() {
    assert!(matches!(validate_note_update(ID, None, None, None, None).unwrap(), FolderChange::Keep));
    assert!(matches!(validate_note_update(ID, None, None, Some("null"), None).unwrap(), FolderChange::Clear));
    assert!(matches!(validate_note_update(ID, None, None, Some(""), None).unwrap(), FolderChange::Clear));
    match validate_note_update(ID, None, None, Some(ID), None).unwrap() {
        FolderChange::MoveTo(u) => assert_eq!(u.to_string(), ID),
        other => panic!("unexpected {:?}", other),
    }
    assert_eq!(
        validation(validate_note_update(ID, None, None, Some("NULL"), None).map(|_| ())),
        "folder_id must be a valid UUID"
    );
}

#[test]
fn validated_uuid_is_the_one_spelled() {
    let u = validate_uuid("550E8400E29B41D4A716446655440000", "id").unwrap();
    assert_eq!(u.as_bytes()[0], 0x55);
    assert_eq!(u.as_bytes()[15], 0x00);
    assert_eq!(u.to_string(), ID);
    let braced = validate_uuid("{550e8400-e29b-41d4-a716-446655440000}", "id").unwrap();
    assert_eq!(braced, u);
    let urn = validate_uuid("URN:uuid:550e8400-e29b-41d4-a716-446655440000", "id").unwrap();
    assert_eq!(urn, u);
}

#[test]
fn wrong_master_password_is_refused_and_recorded() {
    let mut gate = gate();
    gate.initialize_vault_at("correct horse", None, at(0)).unwrap();
    for i in 0..3 {
        assert_eq!(unauthorized(gate.unlock_at("wrong horse", at(10 + i))), "Incorrect master password");
        assert!(gate.require_unlocked().is_err());
    }
    // the fourth failure brings the first delay
    assert_eq!(unauthorized(gate.unlock_at("wrong horse", at(20))), "Incorrect master password");
    assert_eq!(
        unauthorized(gate.unlock_at("correct horse", at(21))),
        "Too many failed attempts. Please wait 2 seconds before retrying."
    );
}

#[test]
fn changed_password_replaces_the_old_one() {
    let mut gate = gate();
    gate.initialize_vault_at("old password", None, at(0)).unwrap();
    gate.unlock_at("old password", at(1)).unwrap();
    assert_eq!(
        unauthorized(gate.change_password_at("not the password", "new password", at(2))),
        "Current password is incorrect"
    );
    gate.change_password_at("old password", "new password", at(3)).unwrap();
    gate.lock();
    assert_eq!(unauthorized(gate.unlock_at("old password", at(4))), "Incorrect master password");
    assert!(gate.unlock_at("new password", at(5)).is_ok());
}

#[test]
fn raw_crypto_commands_are_refused() {
    assert_eq!(
        validation(crypto_derive_key("pw".to_string(), "salt".to_string()).map(|_| ())),
        "Direct key derivation is not available via IPC. Use auth_unlock instead."
    );
    assert_eq!(
        validation(crypto_encrypt_data("secret".to_string(), "ctx".to_string()).map(|_| ())),
        "Direct encryption is not available via IPC. Use domain-specific commands instead."
    );
    assert_eq!(
        validation(crypto_decrypt_data("AAAA".to_string(), "ctx".to_string()).map(|_| ())),
        "Direct decryption is not available via IPC. Use domain-specific commands instead."
    );
}
