use kestrel_vault::audit::logger::AuditLog;
use kestrel_vault::crypto::envelope::{open_envelope, AadContext, EncryptedEnvelope};
use kestrel_vault::crypto::kdf::DerivedKey;
use kestrel_vault::error::KestrelError;
use kestrel_vault::vault::entry::{CreateEntryRequest, UpdateEntryRequest, VaultEntry};
use kestrel_vault::vault::folder::{build_folder_tree, move_folder, Folder};
use kestrel_vault::vault::search::{build_search_index, SearchQuery};
use kestrel_vault::vault::service::{encrypted_field_update, VaultServiceImpl};

#[test]
fn audit_log_default() {
    let _logger = AuditLog::default();
}

#[test]
fn create_vault_entry() {
    let entry = VaultEntry::new(
        "GitHub".to_string(),
        "user@example.com".to_string(),
        vec![1, 2, 3, 4],
        vec![5, 6, 7, 8],
    )
    .unwrap();
    assert_eq!(entry.title, "GitHub");
    assert_eq!(entry.username, "user@example.com");
    assert!(entry.url.is_none());
    assert!(entry.folder_id.is_none());
    assert!(entry.tags.is_empty());
}

#[test]
fn vault_entry_has_uuid() {
    let entry = VaultEntry::new("Test".to_string(), "user".to_string(), vec![], vec![]).unwrap();
    assert!(!entry.id.is_nil());
}

#[test]
fn create_root_folder() {
    let folder = Folder::new("Personal".to_string()).unwrap();
    assert!(folder.is_root());
    assert_eq!(folder.name, "Personal");
}

#[test]
fn create_child_folder() {
    let parent = Folder::new("Personal".to_string()).unwrap();
    let child = Folder::new_child("Banking".to_string(), parent.id).unwrap();
    assert!(!child.is_root());
    assert_eq!(child.parent_id, Some(parent.id));
}

#[test]
fn folder_has_uuid() {
    let folder = Folder::new("Test".to_string()).unwrap();
    assert!(!folder.id.is_nil());
}

#[test]
fn search_query_validates_empty() {
    let query = SearchQuery::new("".to_string());
    assert!(query.validate().is_err());
}

#[test]
fn search_query_validates_whitespace() {
    let query = SearchQuery::new("   ".to_string());
    assert!(query.validate().is_err());
}

#[test]
fn search_query_validates_normal() {
    let query = SearchQuery::new("github".to_string());
    assert!(query.validate().is_ok());
}

#[test]
fn search_query_validates_too_long() {
    let query = SearchQuery::new("a".repeat(257));
    assert!(query.validate().is_err());
}

#[test]
fn search_query_limits_and_messages() {
    assert!(SearchQuery::new("a".repeat(256)).validate().is_ok());
    match SearchQuery::new("a".repeat(257)).validate() {
        Err(KestrelError::Validation(m)) => assert_eq!(m, "Search term too long (max 256 characters)"),
        other => panic!("unexpected {:?}", other),
    }
    match SearchQuery::new(" ".to_string()).validate() {
        Err(KestrelError::Validation(m)) => assert_eq!(m, "Search term must not be empty"),
        other => panic!("unexpected {:?}", other),
    }
    let q = SearchQuery::new("x".to_string());
    assert!(q.folder_id.is_none() && q.tag.is_none() && q.limit.is_none());
}

#[test]
fn new_entries_get_distinct_ids_and_equal_times() {
    let a = VaultEntry::new("a".into(), "u".into(), vec![], vec![]).unwrap();
    let b = VaultEntry::new("b".into(), "u".into(), vec![], vec![]).unwrap();
    assert_ne!(a.id, b.id);
    assert_eq!(a.created_at, a.updated_at);
    assert_eq!(a.id.get_version(), Some(uuid::Version::Random));
}

#[test]
fn folder_tree_is_empty_for_now() {
    let folders = vec![Folder::new("Personal".to_string()).unwrap()];
    assert!(build_folder_tree(&folders).unwrap().is_empty());
    assert!(build_folder_tree(&[]).unwrap().is_empty());
}

#[test]
fn folder_move_is_refused() {
    let f = Folder::new("Personal".to_string()).unwrap();
    match move_folder(f.id, None) {
        Err(KestrelError::Vault(m)) => assert_eq!(m, "Folder move not yet implemented"),
        other => panic!("unexpected {:?}", other),
    }
}

#[test]
fn search_index_accepts_entries() {
    let entry = VaultEntry::new("Test".to_string(), "user".to_string(), vec![], vec![]).unwrap();
    assert!(build_search_index(&entry).is_ok());
}

#[test]
fn entry_update_keeps_clears_or_seals_each_field() {
    let key = DerivedKey::new([7u8; 32]);
    // Left out of the update: keep what is stored.
    assert_eq!(encrypted_field_update(&key, None, true, "entry-1", "url").unwrap(), None);
    // An empty URL, notes or tags value clears the field.
    assert_eq!(encrypted_field_update(&key, Some(b""), true, "entry-1", "url").unwrap(), Some(Vec::new()));
    // An empty password is still sealed.
    let sealed_empty = encrypted_field_update(&key, Some(b""), false, "entry-1", "password").unwrap().unwrap();
    let envelope = EncryptedEnvelope::from_bytes(&sealed_empty, AadContext::new("entry-1", "password")).unwrap();
    assert_eq!(open_envelope(&key, &envelope).unwrap(), Vec::<u8>::new());
    // A value is sealed, bound to the entry and the field.
    let sealed = encrypted_field_update(&key, Some(b"https://example.com"), true, "entry-1", "url").unwrap().unwrap();
    assert_ne!(sealed, b"https://example.com".to_vec());
    let envelope = EncryptedEnvelope::from_bytes(&sealed, AadContext::new("entry-1", "url")).unwrap();
    assert_eq!(open_envelope(&key, &envelope).unwrap(), b"https://example.com".to_vec());
    let moved = EncryptedEnvelope::from_bytes(&sealed, AadContext::new("entry-1", "notes")).unwrap();
    assert!(open_envelope(&key, &moved).is_err());
}

fn opened(dek: &DerivedKey, stored: &[u8], entity: &str, field: &str) -> Vec<u8> {
    let envelope = EncryptedEnvelope::from_bytes(stored, AadContext::new(entity, field)).unwrap();
    open_envelope(dek, &envelope).unwrap()
}

#[test]
fn vault_service_impl_exists() {
    let dek = DerivedKey::new([7u8; 32]);
    let service = VaultServiceImpl::new(&dek);
    assert_eq!(service.dek.key, [7u8; 32]);
}

#[test]
fn entry_update_seals_given_fields_and_keeps_the_rest() {
    let dek = DerivedKey::new([9u8; 32]);
    let service = VaultServiceImpl::new(&dek);
    let folder = uuid::Uuid::parse_str("550e8400-e29b-41d4-a716-446655440000").unwrap();
    let update = service
        .encrypt_entry_update(
            "entry-1",
            UpdateEntryRequest {
                title: Some("GitHub".to_string()),
                username: None,
                password: Some(String::new()),
                url: Some(String::new()),
                notes: Some("recovery codes in drawer".to_string()),
                folder_id: Some(folder),
                tags: Some(vec!["work".to_string(), "dev".to_string()]),
            },
        )
        .unwrap();
    assert_eq!(update.title, Some("GitHub".to_string()));
    assert_eq!(update.username, None);
    // An empty password is still sealed; an empty URL clears the field.
    assert_eq!(opened(&dek, update.encrypted_password.as_ref().unwrap(), "entry-1", "password"), Vec::<u8>::new());
    assert_eq!(update.encrypted_url, Some(Vec::new()));
    assert_eq!(
        opened(&dek, update.encrypted_notes.as_ref().unwrap(), "entry-1", "notes"),
        b"recovery codes in drawer".to_vec()
    );
    assert_eq!(opened(&dek, update.encrypted_tags.as_ref().unwrap(), "entry-1", "tags"), br#"["work","dev"]"#.to_vec());
    assert_eq!(update.encrypted_totp_secret, None);
    assert_eq!(update.folder_id, Some(Some("550e8400-e29b-41d4-a716-446655440000".to_string())));

    let keep = service
        .encrypt_entry_update(
            "entry-1",
            UpdateEntryRequest {
                title: None,
                username: None,
                password: None,
                url: None,
                notes: Some(String::new()),
                folder_id: None,
                tags: Some(Vec::new()),
            },
        )
        .unwrap();
    assert_eq!(keep.encrypted_password, None);
    assert_eq!(keep.encrypted_url, None);
    assert_eq!(keep.encrypted_notes, Some(Vec::new()));
    assert_eq!(keep.encrypted_tags, Some(Vec::new()));
    assert_eq!(keep.folder_id, None);
}

#[test]
fn new_entry_gets_an_id_and_sealed_fields() {
    let dek = DerivedKey::new([3u8; 32]);
    let service = VaultServiceImpl::new(&dek);
    let entry = service
        .encrypt_new_entry(CreateEntryRequest {
            title: "Mail".to_string(),
            username: "me@example.com".to_string(),
            password: "hunter2hunter2".to_string(),
            url: Some(String::new()),
            notes: None,
            folder_id: None,
            tags: Vec::new(),
        })
        .unwrap();
    let id = entry.id.clone();
    assert!(uuid::Uuid::parse_str(&id).is_ok());
    assert_eq!(entry.title, "Mail");
    assert_eq!(opened(&dek, &entry.encrypted_password, &id, "password"), b"hunter2hunter2".to_vec());
    assert!(entry.encrypted_url.is_empty());
    assert!(entry.encrypted_notes.is_empty());
    assert!(entry.encrypted_tags.is_empty());
    assert_eq!(entry.folder_id, None);
    // Bound to the entry: it does not open as another entry's field.
    let moved = EncryptedEnvelope::from_bytes(&entry.encrypted_password, AadContext::new("other", "password")).unwrap();
    assert!(open_envelope(&dek, &moved).is_err());

    let fixed = service
        .seal_new_entry(
            "entry-2".to_string(),
            CreateEntryRequest {
                title: "Bank".to_string(),
                username: "me".to_string(),
                password: "pw".to_string(),
                url: Some("https://bank.example".to_string()),
                notes: Some("n".to_string()),
                folder_id: None,
                tags: vec!["money".to_string()],
            },
        )
        .unwrap();
    assert_eq!(fixed.id, "entry-2");
    assert_eq!(opened(&dek, &fixed.encrypted_url, "entry-2", "url"), b"https://bank.example".to_vec());
    assert_eq!(opened(&dek, &fixed.encrypted_notes, "entry-2", "notes"), b"n".to_vec());
    assert_eq!(opened(&dek, &fixed.encrypted_tags, "entry-2", "tags"), br#"["money"]"#.to_vec());
}

#[test]
fn notes_are_sealed_on_create_and_update() {
    let dek = DerivedKey::new([5u8; 32]);
    let service = VaultServiceImpl::new(&dek);
    let note = service.encrypt_new_note("Wifi", "password: abc", None, Vec::new()).unwrap();
    assert!(uuid::Uuid::parse_str(&note.id).is_ok());
    assert_eq!(opened(&dek, &note.encrypted_title, &note.id, "title"), b"Wifi".to_vec());
    assert_eq!(opened(&dek, &note.encrypted_content, &note.id, "content"), b"password: abc".to_vec());
    assert_eq!(note.nonce.len(), 12);
    assert_eq!(note.encrypted_tags, None);

    let fixed = service.seal_new_note("note-1".to_string(), "T", "C", None, vec!["x".to_string()]).unwrap();
    assert_eq!(opened(&dek, fixed.encrypted_tags.as_ref().unwrap(), "note-1", "tags"), br#"["x"]"#.to_vec());

    let update = service
        .encrypt_note_update("note-1", None, Some("new content".to_string()), Some(None), Some(Vec::new()))
        .unwrap();
    assert_eq!(update.encrypted_title, None);
    assert_eq!(opened(&dek, update.encrypted_content.as_ref().unwrap(), "note-1", "content"), b"new content".to_vec());
    assert_eq!(update.nonce.as_ref().map(|n| n.len()), Some(12));
    assert_eq!(update.folder_id, Some(None));
    assert_eq!(update.encrypted_tags, Some(None));

    let unchanged = service.encrypt_note_update("note-1", Some("t".to_string()), None, None, None).unwrap();
    assert_eq!(opened(&dek, unchanged.encrypted_title.as_ref().unwrap(), "note-1", "title"), b"t".to_vec());
    assert_eq!(unchanged.nonce, None);
    assert_eq!(unchanged.folder_id, None);
    assert_eq!(unchanged.encrypted_tags, None);
}
