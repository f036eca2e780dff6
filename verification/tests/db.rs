use kestrel_vault::db::audit_event_repo::{AuditEventRepo, CreateAuditEventRequest};
use kestrel_vault::db::backup::{BackupInfo, DbBackup};
use kestrel_vault::db::connection::{format_sqlcipher_key, zeroize_string};
use kestrel_vault::db::migrations::{
    check_migration_record, current_schema_version, foreign_key_violations, get_migrations, integrity_verdict,
    pending_migrations, verify_migration_history, PageStats, CREATE_VAULT_ENTRIES, CREATE_VAULT_META, CURRENT_SCHEMA_VERSION, FIX_FOLDERS_ENCRYPTION,
};
use kestrel_vault::db::repository::Pagination;
use kestrel_vault::db::stats::{FolderStats, VaultStats};
use kestrel_vault::db::vault_entry_repo::VaultEntryRepo;
use kestrel_vault::db::vault_meta_repo::VaultMetaRepo;
use kestrel_vault::error::KestrelError;

// ── connection ──

#[test]
fn format_sqlcipher_key_formats_correctly() {
    let key = [0xABu8, 0xCD, 0xEF, 0x01];
    let formatted = format_sqlcipher_key(&key);
    assert_eq!(formatted, "x'abcdef01'");
}

#[test]
fn format_sqlcipher_key_empty() {
    let key: [u8; 0] = [];
    let formatted = format_sqlcipher_key(&key);
    assert_eq!(formatted, "x''");
}

#[test]
fn format_sqlcipher_key_full_32_bytes() {
    let key = [0xFFu8; 32];
    let formatted = format_sqlcipher_key(&key);
    assert!(formatted.starts_with("x'"));
    assert!(formatted.ends_with("'"));
    assert_eq!(formatted.len(), 67);
}

#[test]
fn zeroize_string_clears_content() {
    let mut s = "sensitive_key_material".to_string();
    let original_len = s.len();
    zeroize_string(&mut s);
    assert_eq!(s.len(), original_len);
}

#[test]
fn zeroize_string_writes_zero_bytes() {
    let mut s = "kéy".to_string();
    zeroize_string(&mut s);
    assert_eq!(s.as_bytes(), &[0u8, 0, 0, 0]);
}

#[test]
fn format_sqlcipher_key_leading_zero_nibbles() {
    assert_eq!(format_sqlcipher_key(&[0x00, 0x0a, 0xa0]), "x'000aa0'");
}

// ── migrations ──

#[test]
fn migrations_are_ordered() {
    let migrations = get_migrations();
    for i in 1..migrations.len() {
        assert!(migrations[i].version > migrations[i - 1].version, "Migrations must be in ascending version order");
    }
}

#[test]
fn current_schema_version_matches_migrations() {
    let migrations = get_migrations();
    let max_version = migrations.iter().map(|m| m.version).max().unwrap_or(0);
    assert_eq!(current_schema_version(), max_version);
}

#[test]
fn all_migrations_have_non_empty_sql() {
    for migration in get_migrations() {
        assert!(!migration.sql.trim().is_empty(), "Migration v{} '{}' has empty SQL", migration.version, migration.name);
    }
}

#[test]
fn all_migrations_have_checksums() {
    for migration in get_migrations() {
        assert!(
            !migration.checksum.trim().is_empty(),
            "Migration v{} '{}' has empty checksum",
            migration.version,
            migration.name
        );
    }
}

#[test]
fn vault_meta_includes_wrapped_dek() {
    assert!(CREATE_VAULT_META.contains("wrapped_dek"), "vault_meta must include wrapped_dek column for KEK/DEK hierarchy");
}

#[test]
fn vault_meta_includes_kdf_version() {
    assert!(CREATE_VAULT_META.contains("kdf_version"), "vault_meta must include kdf_version for parameter versioning");
}

#[test]
fn folders_migration_adds_nonce() {
    assert!(FIX_FOLDERS_ENCRYPTION.contains("nonce BLOB NOT NULL"), "Migration 8 must add nonce BLOB NOT NULL to folders");
    assert!(FIX_FOLDERS_ENCRYPTION.contains("name BLOB NOT NULL"), "Migration 8 must convert name to BLOB in folders");
}

#[test]
fn vault_entries_has_encrypted_fields() {
    assert!(CREATE_VAULT_ENTRIES.contains("encrypted_url"), "vault_entries must have encrypted_url");
    assert!(CREATE_VAULT_ENTRIES.contains("encrypted_tags"), "vault_entries must have encrypted_tags");
    assert!(CREATE_VAULT_ENTRIES.contains("encrypted_totp_secret"), "vault_entries must have encrypted_totp_secret");
}

#[test]
fn migration_list_is_one_to_eight() {
    let ms = get_migrations();
    assert_eq!(ms.len(), 8);
    for (i, m) in ms.iter().enumerate() {
        assert_eq!(m.version as usize, i + 1);
    }
    assert_eq!(ms[0].name, "create_schema_version_table");
    assert_eq!(ms[7].name, "fix_folders_encryption");
    assert_eq!(CURRENT_SCHEMA_VERSION, 8);
}

#[test]
fn pending_migrations_follow_the_current_version() {
    let p = pending_migrations(5);
    assert_eq!(p.iter().map(|m| m.version).collect::<Vec<_>>(), vec![6, 7, 8]);
    assert!(pending_migrations(8).is_empty());
    assert!(pending_migrations(100).is_empty());
    assert_eq!(pending_migrations(0).len(), 8);
}

#[test]
fn migration_record_checks() {
    assert_eq!(check_migration_record(4, "create_folders_table", "sha256:m3n4o5p6_folders").unwrap(), true);
    assert_eq!(check_migration_record(9, "future", "x").unwrap(), false);
    assert_eq!(check_migration_record(0, "none", "x").unwrap(), false);
    match check_migration_record(2, "create_vault_meta_table", "bad") {
        Err(KestrelError::Database(m)) => assert_eq!(
            m,
            "Migration v2 'create_vault_meta_table' checksum mismatch: expected 'sha256:e5f6g7h8_vault_meta_v2', got 'bad'"
        ),
        other => panic!("unexpected {:?}", other),
    }
}

// ── page statistics ──

#[test]
fn page_stats_needs_vacuum() {
    let stats = PageStats {
        total_pages: 100,
        page_size_bytes: 4096,
        free_pages: 30,
        used_pages: 70,
        total_size_bytes: 409600,
        free_size_bytes: 122880,
    };
    assert!(stats.needs_vacuum());
}

#[test]
fn page_stats_no_vacuum_needed() {
    let stats = PageStats {
        total_pages: 100,
        page_size_bytes: 4096,
        free_pages: 5,
        used_pages: 95,
        total_size_bytes: 409600,
        free_size_bytes: 20480,
    };
    assert!(!stats.needs_vacuum());
}

#[test]
fn page_stats_format_bytes() {
    assert_eq!(PageStats::format_bytes(1024), "1.00 KB");
    assert_eq!(PageStats::format_bytes(1048576), "1.00 MB");
}

#[test]
fn page_stats_human_readable() {
    let stats = PageStats {
        total_pages: 1000,
        page_size_bytes: 4096,
        free_pages: 100,
        used_pages: 900,
        total_size_bytes: 4096000,
        free_size_bytes: 409600,
    };
    assert_eq!(stats.human_total_size(), "3.91 MB");
    assert_eq!(stats.human_free_size(), "400.00 KB");
}

#[test]
fn exactly_twenty_percent_free_does_not_need_vacuum() {
    let mut stats = PageStats {
        total_pages: 100,
        page_size_bytes: 4096,
        free_pages: 20,
        used_pages: 80,
        total_size_bytes: 409600,
        free_size_bytes: 81920,
    };
    assert!(!stats.needs_vacuum());
    stats.free_pages = 21;
    assert!(stats.needs_vacuum());
    stats.total_pages = 0;
    assert!(!stats.needs_vacuum());
}

fn float_rendering(bytes: u64) -> String {
    const KB: u64 = 1024;
    const MB: u64 = 1024 * KB;
    const GB: u64 = 1024 * MB;
    if bytes >= GB {
        format!("{:.2} GB", bytes as f64 / GB as f64)
    } else if bytes >= MB {
        format!("{:.2} MB", bytes as f64 / MB as f64)
    } else if bytes >= KB {
        format!("{:.2} KB", bytes as f64 / KB as f64)
    } else {
        format!("{bytes} bytes")
    }
}

#[test]
fn format_bytes_agrees_with_float_formatting() {
    let mut samples: Vec<u64> = vec![
        0, 1, 1023, 1024, 1025, 1152, 1536, 1034, 5248, 1048575, 1048576, 1049088, 4096000, 1073741823,
        1073741824, 1073741824 * 3 / 2, 5_368_709_120, 9_007_199_254_740_991, 9_007_199_254_740_993,
        18_014_398_509_481_985, u64::MAX, u64::MAX - 1, 1u64 << 63, (1u64 << 63) + 1024,
    ];
    let mut x: u64 = 0x9E37_79B9_7F4A_7C15;
    for _ in 0..2000 {
        x ^= x << 13;
        x ^= x >> 7;
        x ^= x << 17;
        let shift = (x % 64) as u32;
        samples.push(x >> shift);
        samples.push((x >> 40) + 1024);
    }
    for b in samples {
        assert_eq!(PageStats::format_bytes(b), float_rendering(b), "bytes = {b}");
    }
}

#[test]
fn format_bytes_rounds_ties_to_even() {
    assert_eq!(PageStats::format_bytes(1152), "1.12 KB");
    assert_eq!(PageStats::format_bytes(1000), "1000 bytes");
    assert_eq!(PageStats::format_bytes(u64::MAX), "17179869184.00 GB");
}

// ── pagination ──

#[test]
fn repository_pagination_default() {
    let p = Pagination::default();
    assert_eq!(p.limit, 50);
    assert_eq!(p.offset, 0);
}

#[test]
fn pagination_custom() {
    let p = Pagination::new(100, 200);
    assert_eq!(p.limit, 100);
    assert_eq!(p.offset, 200);
}

#[test]
fn pagination_first_page() {
    let p = Pagination::first_page(25);
    assert_eq!(p.limit, 25);
    assert_eq!(p.offset, 0);
}

#[test]
fn pagination_specific_page() {
    let p = Pagination::page(2, 20);
    assert_eq!(p.limit, 20);
    assert_eq!(p.offset, 40);
}

#[test]
fn pagination_next() {
    let p = Pagination::page(0, 10);
    let next = p.next();
    assert_eq!(next.offset, 10);
    assert_eq!(next.limit, 10);
}

#[test]
fn pagination_previous() {
    let p = Pagination::page(2, 10);
    let prev = p.previous().unwrap();
    assert_eq!(prev.offset, 10);
    assert_eq!(prev.limit, 10);
}

#[test]
fn pagination_previous_first_page() {
    let p = Pagination::first_page(10);
    assert!(p.previous().is_none());
}

#[test]
fn pagination_previous_second_page() {
    let p = Pagination::page(1, 10);
    let prev = p.previous().unwrap();
    assert_eq!(prev.offset, 0);
}

#[test]
fn pagination_next_then_previous_returns() {
    let p = Pagination::new(7, 3);
    assert_eq!(p.next().previous(), Some(p));
    let q = Pagination::new(5, 12);
    assert_eq!(q.previous().unwrap().next(), q);
    assert_eq!(Pagination::page(3, 9).next(), Pagination::page(4, 9));
}

// ── statistics ──

fn stats(total_entries: i64, totp: i64, folders: i64, depth: i64, notes: i64, files: i64, events: i64, upgrade: bool) -> VaultStats {
    VaultStats {
        total_entries,
        entries_with_totp: totp,
        root_entries: 10,
        total_folders: folders,
        root_folders: 3,
        max_folder_depth: depth,
        total_notes: notes,
        total_files: files,
        total_audit_events: events,
        audit_events_last_24h: 12,
        password_reveals_last_24h: 3,
        entries_modified_last_7d: 8,
        entries_never_accessed: 5,
        schema_version: 8,
        kdf_needs_upgrade: upgrade,
    }
}

#[test]
fn vault_stats_default_values() {
    let stats = VaultStats {
        total_entries: 0,
        entries_with_totp: 0,
        root_entries: 0,
        total_folders: 0,
        root_folders: 0,
        max_folder_depth: 0,
        total_notes: 0,
        total_files: 0,
        total_audit_events: 0,
        audit_events_last_24h: 0,
        password_reveals_last_24h: 0,
        entries_modified_last_7d: 0,
        entries_never_accessed: 0,
        schema_version: 8,
        kdf_needs_upgrade: false,
    };
    assert_eq!(stats.total_entries, 0);
    assert_eq!(stats.schema_version, 8);
    assert!(!stats.kdf_needs_upgrade);
}

#[test]
fn vault_stats_summary_format() {
    let stats = stats(42, 5, 8, 4, 15, 7, 100, false);
    let summary = stats.summary();
    assert!(summary.contains("Entries: 42"));
    assert!(summary.contains("5 TOTP"));
    assert!(summary.contains("Folders: 8"));
    assert!(summary.contains("Schema: v8"));
    assert!(!summary.contains("KDF UPGRADE"));
}

#[test]
fn vault_stats_summary_with_kdf_upgrade() {
    let stats = stats(10, 0, 0, 0, 0, 0, 0, true);
    let summary = stats.summary();
    assert!(summary.contains("KDF UPGRADE NEEDED"));
}

#[test]
fn vault_stats_summary_exact() {
    let s = stats(42, 5, 8, 4, 15, 7, 100, true).summary();
    assert_eq!(
        s,
        "Entries: 42 (5 TOTP) | Folders: 8 (depth 4) | Notes: 15 | Files: 7 | Events: 100 | Schema: v8 [KDF UPGRADE NEEDED]"
    );
    let neg = stats(-1, 0, 0, 0, 0, 0, 0, false).summary();
    assert!(neg.starts_with("Entries: -1 (0 TOTP)"));
}

#[test]
fn folder_stats_total_items() {
    let stats = FolderStats {
        folder_id: "test-id".to_string(),
        entry_count: 5,
        note_count: 3,
        file_count: 2,
        child_folder_count: 1,
    };
    assert_eq!(stats.total_items(), 10);
}

#[test]
fn folder_depth_computation() {
    let parent_map: Vec<(String, Option<String>)> = vec![
        ("root".to_string(), None),
        ("child1".to_string(), Some("root".to_string())),
        ("grandchild".to_string(), Some("child1".to_string())),
        ("root2".to_string(), None),
    ];
    assert_eq!(VaultStats::folder_depth("root", &parent_map), 1);
    assert_eq!(VaultStats::folder_depth("child1", &parent_map), 2);
    assert_eq!(VaultStats::folder_depth("grandchild", &parent_map), 3);
    assert_eq!(VaultStats::folder_depth("root2", &parent_map), 1);
}

#[test]
fn folder_depth_caps_cycles_at_one_hundred() {
    let cycle: Vec<(String, Option<String>)> =
        vec![("a".to_string(), Some("b".to_string())), ("b".to_string(), Some("a".to_string()))];
    assert_eq!(VaultStats::folder_depth("a", &cycle), 100);
    let unknown: Vec<(String, Option<String>)> = vec![("x".to_string(), Some("missing".to_string()))];
    assert_eq!(VaultStats::folder_depth("x", &unknown), 2);
    assert_eq!(VaultStats::folder_depth("nowhere", &unknown), 1);
}

#[test]
fn max_folder_depth_over_all_folders() {
    let links: Vec<(String, Option<String>)> = vec![
        ("root".to_string(), None),
        ("child1".to_string(), Some("root".to_string())),
        ("grandchild".to_string(), Some("child1".to_string())),
    ];
    assert_eq!(VaultStats::max_folder_depth(&links), 3);
    assert_eq!(VaultStats::max_folder_depth(&[]), 0);
}

// ── repositories and backups ──

#[test]
fn create_request_builds() {
    let req = CreateAuditEventRequest {
        category: "Auth".to_string(),
        action: "UnlockSucceeded".to_string(),
        subject: "user".to_string(),
        metadata_json: None,
    };
    assert_eq!(req.category, "Auth");
    assert_eq!(req.action, "UnlockSucceeded");
}

#[test]
fn audit_row_keeps_request_fields() {
    let req = CreateAuditEventRequest {
        category: "Vault".to_string(),
        action: "EntryCreated".to_string(),
        subject: "e1".to_string(),
        metadata_json: Some("{}".to_string()),
    };
    let row = AuditEventRepo::row_for(req, "id-1".to_string(), "2025-01-01T00:00:00Z".to_string());
    assert_eq!(row.id, "id-1");
    assert_eq!(row.category, "Vault");
    assert_eq!(row.metadata_json.as_deref(), Some("{}"));
    assert_eq!(row.timestamp, "2025-01-01T00:00:00Z");
}

#[test]
fn vault_meta_initialization_rules() {
    let r = VaultMetaRepo::initial_row(true, "s".into(), 3, 262144, 4, vec![1], None, "now".into());
    match r {
        Err(KestrelError::Config(m)) => assert_eq!(m, "Vault is already initialized"),
        _ => panic!("expected a configuration error"),
    }
    let m = VaultMetaRepo::initial_row(false, "abcd".into(), 3, 262144, 4, vec![1, 2], Some("h".into()), "t0".into())
        .unwrap();
    assert_eq!(m.id, 1);
    assert_eq!(m.salt, "abcd");
    assert_eq!(m.created_at, "t0");
    assert_eq!(m.updated_at, "t0");
    assert!(matches!(VaultMetaRepo::salt_update_outcome(0), Err(KestrelError::Config(_))));
    assert!(VaultMetaRepo::salt_update_outcome(1).is_ok());
}

#[test]
fn search_pattern_wraps_query() {
    assert_eq!(VaultEntryRepo::search_pattern("git"), "%git%");
    assert_eq!(VaultEntryRepo::search_pattern(""), "%%");
}

#[test]
fn generate_backup_filename_format() {
    let filename = DbBackup::generate_backup_filename();
    assert!(filename.starts_with("kestrel_vault_backup_"));
    assert!(filename.ends_with(".db"));
    assert!(filename.contains('_'));
    assert_eq!(filename.len(), "kestrel_vault_backup_".len() + 8 + 1 + 6 + 3);
}

#[test]
fn backup_checks() {
    assert!(matches!(DbBackup::verify_backup_facts(false, 10, 16), Err(KestrelError::Database(_))));
    assert!(matches!(DbBackup::verify_backup_facts(true, 0, 0), Err(KestrelError::Database(_))));
    assert!(matches!(DbBackup::verify_backup_facts(true, 10, 10), Err(KestrelError::Database(_))));
    assert_eq!(DbBackup::verify_backup_facts(true, 4096, 16).unwrap(), true);
    assert!(DbBackup::is_plain_sqlite_header(b"SQLite format 3\0"));
    assert!(!DbBackup::is_plain_sqlite_header(&[0u8; 16]));
    assert!(DbBackup::is_backup_file_name("kestrel_vault_backup_20250101_120000.db"));
    assert!(!DbBackup::is_backup_file_name("kestrel_vault_backup_20250101_120000.db.tmp"));
    assert!(!DbBackup::is_backup_file_name("other.db"));
    assert_eq!(DbBackup::backup_filename("20250101", "120000"), "kestrel_vault_backup_20250101_120000.db");
}

#[test]
fn vacuum_into_statement_quotes_path() {
    assert_eq!(DbBackup::vacuum_into_statement("/tmp/b.db"), "VACUUM INTO '/tmp/b.db'");
}

fn info(size: u64) -> BackupInfo {
    BackupInfo {
        path: std::path::PathBuf::from("/tmp/kestrel_vault_backup_20240101_000000.db"),
        file_size_bytes: size,
        created_at: "2024-01-01T00:00:00+00:00".to_string(),
        schema_version: 2,
        entry_count: 7,
    }
}

#[test]
fn backup_outcome_verified_only_with_content() {
    let r = DbBackup::backup_outcome(info(4096));
    assert!(r.verified);
    assert_eq!(r.info.file_size_bytes, 4096);
    assert_eq!(r.info.entry_count, 7);
    assert_eq!(r.info.schema_version, 2);
    assert!(!DbBackup::backup_outcome(info(0)).verified);
}

#[test]
fn backups_ordered_newest_first() {
    let p = |s: &str| std::path::PathBuf::from(s);
    let ordered = DbBackup::order_newest_first(vec![
        (p("a.db"), 10),
        (p("b.db"), 30),
        (p("c.db"), -5),
        (p("d.db"), 30),
        (p("e.db"), 0),
    ]);
    assert_eq!(ordered, vec![p("b.db"), p("d.db"), p("a.db"), p("e.db"), p("c.db")]);
    assert!(DbBackup::order_newest_first(vec![]).is_empty());
}

fn row(version: u32, name: &str, checksum: &str) -> (u32, String, String) {
    (version, name.to_string(), checksum.to_string())
}

#[test]
fn migration_history_reports_first_mismatch() {
    let good = vec![
        row(4, "create_folders_table", "sha256:m3n4o5p6_folders"),
        row(9, "future", "x"),
    ];
    assert!(verify_migration_history(&good).is_ok());
    assert!(verify_migration_history(&[]).is_ok());
    let bad = vec![
        row(9, "future", "x"),
        row(2, "create_vault_meta_table", "bad"),
        row(4, "create_folders_table", "worse"),
    ];
    match verify_migration_history(&bad) {
        Err(KestrelError::Database(m)) => assert_eq!(
            m,
            "Migration v2 'create_vault_meta_table' checksum mismatch: expected 'sha256:e5f6g7h8_vault_meta_v2', got 'bad'"
        ),
        other => panic!("unexpected {:?}", other),
    }
}

#[test]
fn integrity_verdict_accepts_only_ok() {
    assert!(integrity_verdict("ok").is_ok());
    match integrity_verdict("*** in database main ***") {
        Err(KestrelError::Database(m)) => {
            assert_eq!(m, "Database integrity check failed: *** in database main ***")
        }
        other => panic!("unexpected {:?}", other),
    }
    assert!(integrity_verdict("OK").is_err());
}

#[test]
fn foreign_key_rows_become_violations() {
    let v = foreign_key_violations(vec![
        ("vault_entries".to_string(), 7, "folders".to_string(), 0),
        ("notes".to_string(), 9, "folders".to_string(), 1),
    ]);
    assert_eq!(v.len(), 2);
    assert_eq!(v[0].table, "vault_entries");
    assert_eq!(v[0].rowid, 7);
    assert_eq!(v[1].parent, "folders");
    assert_eq!(v[1].fk_index, 1);
}

#[test]
fn page_stats_from_pragmas() {
    let p = PageStats::from_pragmas(100, 4096, 30);
    assert_eq!(p.used_pages, 70);
    assert_eq!(p.total_size_bytes, 409_600);
    assert_eq!(p.free_size_bytes, 122_880);
    assert!(p.needs_vacuum());
    assert!(!PageStats::from_pragmas(100, 4096, 20).needs_vacuum());
}

#[test]
fn generated_backup_names_are_recognised() {
    assert!(DbBackup::is_backup_file_name(&DbBackup::backup_filename("20250101", "120000")));
    assert!(DbBackup::is_backup_file_name(&DbBackup::backup_filename("", "")));
    assert!(DbBackup::is_backup_file_name(&DbBackup::generate_backup_filename()));
}

#[test]
fn backup_info_is_stamped_now() {
    let info = DbBackup::backup_info_now(std::path::PathBuf::from("/tmp/b.db"), 2048, 8, 3);
    assert_eq!(info.file_size_bytes, 2048);
    assert_eq!(info.schema_version, 8);
    assert_eq!(info.entry_count, 3);
    assert_eq!(info.path, std::path::PathBuf::from("/tmp/b.db"));
    // RFC 3339: date, 'T', time and a UTC offset
    assert!(info.created_at.len() >= 25);
    assert_eq!(&info.created_at[4..5], "-");
    assert_eq!(&info.created_at[10..11], "T");
    assert!(info.created_at.ends_with("+00:00"));
}
