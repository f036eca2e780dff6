use kestrel_vault::scanner::breach_check::{
    check_breach_status, hash_password_for_lookup, hash_to_hex, BreachCheckResult,
};
use kestrel_vault::scanner::password_strength::{
    character_space, detect_common_password, detect_keyboard_walk, detect_patterns, detect_repeated_chars,
    detect_sequential_chars, generate_suggestions, generate_warnings, strength_to_threat,
    PasswordStrength, PatternType,
};
use kestrel_vault::scanner::score::{compute_security_score, label_for_score, ScoreInputs};
use kestrel_vault::scanner::findings::{
    breach_response, describe_finding, finding_response, password_age_days, single_affected_entry,
};
use kestrel_vault::scanner::ThreatLevel;

// ── breach checks ──

#[test]
fn hash_password_deterministic() {
    let h1 = hash_password_for_lookup("test-password");
    let h2 = hash_password_for_lookup("test-password");
    assert_eq!(h1, h2);
}

#[test]
fn hash_password_different() {
    let h1 = hash_password_for_lookup("password-a");
    let h2 = hash_password_for_lookup("password-b");
    assert_ne!(h1, h2);
}

#[test]
fn hash_to_hex_format() {
    let hash = hash_password_for_lookup("test");
    let hex = hash_to_hex(&hash);
    assert_eq!(hex.len(), 64);
    assert!(hex.chars().all(|c| c.is_ascii_hexdigit()));
}

#[test]
fn breach_check_returns_result() {
    let result = check_breach_status("test-password").unwrap();
    assert!(!result.is_breached);
}

#[test]
fn breached_result() {
    let result = BreachCheckResult::breached(1000);
    assert!(result.is_breached);
    assert_eq!(result.occurrence_count, 1000);
    assert_eq!(result.threat_level, ThreatLevel::Critical);
}

#[test]
fn not_breached_result() {
    let result = BreachCheckResult::not_breached();
    assert!(!result.is_breached);
    assert_eq!(result.threat_level, ThreatLevel::NoThreat);
}

#[test]
fn sha256_of_abc_is_the_standard_digest() {
    assert_eq!(
        hash_to_hex(&hash_password_for_lookup("abc")),
        "ba7816bf8f01cfea414140de5dae2223b00361a396177a9cb410ff61f20015ad"
    );
}

#[test]
fn breach_messages() {
    assert_eq!(BreachCheckResult::breached(3).message, "This password has appeared in 3 known data breaches");
    assert_eq!(BreachCheckResult::not_breached().message, "This password was not found in known data breaches");
    assert_eq!(ThreatLevel::NoThreat.to_string(), "none");
    assert_eq!(ThreatLevel::Critical.to_string(), "critical");
}

// ── password analysis ──

#[test]
fn detects_keyboard_walk() {
    let result = detect_keyboard_walk("qwerty");
    assert!(result.is_some());
}

#[test]
fn detects_repeated_chars() {
    let result = detect_repeated_chars("aaabbb");
    assert!(result.is_some());
}

#[test]
fn detects_common_password() {
    let result = detect_common_password("password");
    assert!(result.is_some());
}

#[test]
fn keyboard_walk_details() {
    let p = detect_keyboard_walk("xQWErty").unwrap();
    assert_eq!(p.pattern_type, PatternType::KeyboardWalk);
    assert_eq!(p.description, "Keyboard walk pattern detected: 'qwer'");
    assert_eq!(p.entropy_reduction_half_bits, 12);
    let rev = detect_keyboard_walk("ab0987").unwrap();
    assert_eq!(rev.description, "Keyboard walk pattern detected: '0987'");
    assert!(detect_keyboard_walk("qwe").is_none());
    assert!(detect_keyboard_walk("Kx9#mP2$vL5@nQ8!").is_none());
    // A walk found before any multi-byte character is cut.
    assert!(detect_keyboard_walk("qwerté").is_some());
}

#[test]
fn repeated_and_sequential_details() {
    let r = detect_repeated_chars("xaaaay").unwrap();
    assert_eq!(r.description, "Repeated character sequence (x4)");
    assert_eq!(r.entropy_reduction_half_bits, 16);
    assert!(detect_repeated_chars("aabb").is_none());
    let s = detect_sequential_chars("9abcd1").unwrap();
    assert_eq!(s.description, "Sequential character pattern (length 4)");
    assert_eq!(s.entropy_reduction_half_bits, 12);
    assert!(detect_sequential_chars("cba").is_some());
    assert!(detect_sequential_chars("ace").is_none());
}

#[test]
fn common_password_details() {
    let p = detect_common_password("PassWord").unwrap();
    assert_eq!(p.description, "Password is in the list of most common passwords");
    assert_eq!(p.entropy_reduction_half_bits, 48);
    assert!(detect_common_password("password1").is_none());
}

#[test]
fn pattern_list_order() {
    let ps = detect_patterns("qwerty");
    let kinds: Vec<PatternType> = ps.iter().map(|p| p.pattern_type).collect();
    assert_eq!(kinds, vec![PatternType::KeyboardWalk, PatternType::CommonPassword]);
    assert!(detect_patterns("Kx9#mP2$vL5@nQ8!").is_empty());
}

#[test]
fn character_space_by_class() {
    assert_eq!(character_space(""), 0);
    assert_eq!(character_space("abc"), 26);
    assert_eq!(character_space("aB1"), 62);
    assert_eq!(character_space("aB1!"), 95);
    assert_eq!(character_space("é"), 33);
}

#[test]
fn warnings_and_suggestions() {
    let ps = detect_patterns("password");
    let w = generate_warnings("password", &ps);
    assert_eq!(
        w,
        vec![
            "Consider using at least 12 characters",
            "No uppercase letters detected",
            "No digits detected",
            "No symbols detected",
            "Password is in the list of most common passwords",
        ]
    );
    let s = generate_suggestions("password", &ps);
    assert_eq!(
        s,
        vec![
            "Use a longer password (16+ characters recommended)",
            "Add symbols for higher entropy",
            "This is a commonly used password — choose something unique",
        ]
    );
    let strong = "Kx9#mP2$vL5@nQ8!x";
    assert_eq!(generate_suggestions(strong, &detect_patterns(strong)), vec!["Password looks good!"]);
    assert!(generate_warnings(strong, &[]).is_empty());
}

#[test]
fn strength_threat_mapping() {
    assert_eq!(strength_to_threat(&PasswordStrength::VeryWeak), ThreatLevel::Critical);
    assert_eq!(strength_to_threat(&PasswordStrength::Strong), ThreatLevel::Low);
    assert_eq!(strength_to_threat(&PasswordStrength::VeryStrong), ThreatLevel::NoThreat);
    assert_eq!(PasswordStrength::VeryWeak.to_string(), "very_weak");
    assert!(PasswordStrength::Weak < PasswordStrength::Strong);
}

// ── security score ──

fn inputs(entries: u64, folders: u64, notes: u64, vulns: u64, breached: u64, events: u64) -> ScoreInputs {
    ScoreInputs {
        entry_count: entries,
        folder_count: folders,
        entries_with_notes: notes,
        vulnerability_count: vulns,
        breached_count: breached,
        audit_event_count: events,
    }
}

#[test]
fn empty_vault_score() {
    let s = compute_security_score(&inputs(0, 0, 0, 0, 0, 0));
    assert_eq!(s.breakdown.password_health, 100);
    assert_eq!(s.breakdown.breach_status, 80);
    assert_eq!(s.breakdown.vault_hygiene, 75);
    assert_eq!(s.breakdown.audit_compliance, 75);
    assert_eq!(s.score, 82);
    assert_eq!(s.label, "Good");
}

#[test]
fn score_with_findings() {
    let s = compute_security_score(&inputs(10, 2, 1, 3, 1, 50));
    assert_eq!(s.breakdown.password_health, 55);
    assert_eq!(s.breakdown.breach_status, 60);
    assert_eq!(s.breakdown.vault_hygiene, 85);
    assert_eq!(s.breakdown.audit_compliance, 85);
    assert_eq!(s.score, 71);
    assert_eq!(s.label, "Good");
    let worst = compute_security_score(&inputs(10, 0, 0, u64::MAX, 5, 0));
    assert_eq!(worst.breakdown.password_health, 0);
    assert_eq!(worst.score, 52);
    assert_eq!(worst.label, "Fair");
}

#[test]
fn score_labels() {
    assert_eq!(label_for_score(0), "Critical");
    assert_eq!(label_for_score(25), "Critical");
    assert_eq!(label_for_score(26), "Poor");
    assert_eq!(label_for_score(50), "Poor");
    assert_eq!(label_for_score(70), "Fair");
    assert_eq!(label_for_score(85), "Good");
    assert_eq!(label_for_score(86), "Excellent");
    assert_eq!(label_for_score(100), "Excellent");
}

#[test]
fn finding_text_lists_affected_entries() {
    let ids = vec!["a1".to_string(), "b2".to_string(), "c3".to_string()];
    assert_eq!(describe_finding("Weak password", &ids), "Weak password (affects 3 entries: a1, b2, c3)");
    let one = vec!["a1".to_string()];
    assert_eq!(describe_finding("Reused", &one), "Reused (affects 1 entries: a1)");
    assert_eq!(describe_finding("None", &[]), "None (affects 0 entries: )");
}

#[test]
fn single_affected_entry_only_for_one() {
    assert_eq!(single_affected_entry(&["a1".to_string()]), Some("a1".to_string()));
    assert_eq!(single_affected_entry(&["a1".to_string(), "b2".to_string()]), None);
    assert_eq!(single_affected_entry(&[]), None);
}

#[test]
fn keyboard_walk_scan_takes_any_text() {
    let p = detect_keyboard_walk("é1234").unwrap();
    assert_eq!(p.description, "Keyboard walk pattern detected: '1234'");
    let p = detect_keyboard_walk("ÉQWERTé").unwrap();
    assert_eq!(p.description, "Keyboard walk pattern detected: 'qwer'");
    assert!(detect_keyboard_walk("abé").is_none());
    assert!(detect_keyboard_walk("ééé").is_none());
    assert!(detect_patterns("ééé").iter().all(|p| p.pattern_type != PatternType::KeyboardWalk));
    assert!(detect_keyboard_walk("").is_none());
}

#[test]
fn finding_response_reports_one_finding() {
    let ids = vec!["a1".to_string(), "b2".to_string()];
    let r = finding_response("id-1".to_string(), ThreatLevel::High, "Weak password", "Use a stronger one", &ids);
    assert_eq!(r.id, "id-1");
    assert_eq!(r.threat_level, "high");
    assert_eq!(r.description, "Weak password (affects 2 entries: a1, b2)");
    assert_eq!(r.recommendation, "Use a stronger one");
    assert_eq!(r.entry_id, None);
    let one = vec!["a1".to_string()];
    let r = finding_response("id-2".to_string(), ThreatLevel::Critical, "Breached", "Change it", &one);
    assert_eq!(r.threat_level, "critical");
    assert_eq!(r.entry_id, Some("a1".to_string()));
}

#[test]
fn breach_response_only_for_breached_passwords() {
    assert!(breach_response("id".to_string(), BreachCheckResult::not_breached()).is_none());
    let result = BreachCheckResult::breached(1000);
    let message = result.message.clone();
    let threat = result.threat_level.to_string();
    let r = breach_response("id-3".to_string(), result).unwrap();
    assert_eq!(r.id, "id-3");
    assert_eq!(r.threat_level, threat);
    assert_eq!(r.description, message);
    assert_eq!(
        r.recommendation,
        "Change this password immediately \u{2014} it has appeared in known data breaches"
    );
    assert_eq!(r.entry_id, None);
}

fn ts(secs: i64, nanos: u32) -> kestrel_vault::time::Timestamp {
    kestrel_vault::time::Timestamp { secs, nanos }
}

#[test]
fn password_age_counts_whole_days() {
    let day = 86_400i64;
    assert_eq!(password_age_days(ts(1_700_000_000 + 10 * day + 5, 0), ts(1_700_000_000, 0)), 10);
    assert_eq!(password_age_days(ts(1_700_000_000, 0), ts(1_700_000_000 + day, 0)), 0);
    assert_eq!(password_age_days(ts(day - 1, 999_999_999), ts(0, 0)), 0);
    assert_eq!(password_age_days(ts(day, 0), ts(0, 500_000_000)), 0);
    assert_eq!(password_age_days(ts(day, 500_000_000), ts(0, 500_000_000)), 1);
    assert_eq!(password_age_days(ts(0, 0), ts(-3 * day, 0)), 3);
}
