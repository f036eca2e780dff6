//! The database schema and its forward-only migrations, and the page
//! statistics used to decide on VACUUM.
//!
//! Migrations are numbered from 1 without gaps and applied in order; a
//! `schema_version` table records which ones ran and their checksums.

use vstd::prelude::*;
use vstd::string::*;
use crate::error::KestrelError;
use crate::text::{decimal, digit_char, push_char, push_decimal, str_eq};

verus! {

/// The schema version after all migrations (the highest migration number).
pub const CURRENT_SCHEMA_VERSION: u32 = 8;

/// SQL to create the schema version tracking table.
pub const CREATE_VERSION_TABLE: &'static str = r#"
    CREATE TABLE IF NOT EXISTS schema_version (
        version INTEGER PRIMARY KEY,
        name TEXT NOT NULL,
        checksum TEXT NOT NULL,
        applied_at TEXT NOT NULL DEFAULT (datetime('now'))
    );
"#;

/// Migration 2: Create vault_meta table with KEK/DEK support.
pub const CREATE_VAULT_META: &'static str = r#"
    CREATE TABLE IF NOT EXISTS vault_meta (
        id INTEGER PRIMARY KEY CHECK (id = 1),
        salt TEXT NOT NULL,
        iterations INTEGER NOT NULL,
        memory_cost INTEGER NOT NULL,
        parallelism INTEGER NOT NULL,
        kdf_version INTEGER NOT NULL DEFAULT 1,
        test_envelope BLOB NOT NULL,
        wrapped_dek BLOB NOT NULL,
        hint TEXT,
        created_at TEXT NOT NULL DEFAULT (datetime('now')),
        updated_at TEXT NOT NULL DEFAULT (datetime('now'))
    );
"#;

/// Migration 3: Create vault_entries table.
///
/// Sensitive fields are stored as encrypted envelope BLOBs.
/// Each BLOB contains: [version:1][nonce:12][ciphertext:N][tag:16]
/// Non-sensitive fields (title, username) are plaintext for search.
pub const CREATE_VAULT_ENTRIES: &'static str = r#"
    CREATE TABLE IF NOT EXISTS vault_entries (
        id TEXT PRIMARY KEY,
        title TEXT NOT NULL,
        username TEXT NOT NULL,
        encrypted_password BLOB NOT NULL,
        encrypted_url BLOB NOT NULL DEFAULT X'',
        encrypted_notes BLOB NOT NULL DEFAULT X'',
        encrypted_totp_secret BLOB,
        encrypted_tags BLOB NOT NULL DEFAULT X'',
        folder_id TEXT,
        created_at TEXT NOT NULL DEFAULT (datetime('now')),
        updated_at TEXT NOT NULL DEFAULT (datetime('now')),
        accessed_at TEXT NOT NULL DEFAULT (datetime('now')),
        FOREIGN KEY (folder_id) REFERENCES folders(id) ON DELETE SET NULL
    );
"#;

/// Migration 4: Create folders table.
///
/// Note: The original migration used `name TEXT NOT NULL` without a
/// nonce column. Migration 8 updates this to use `name BLOB NOT NULL`
/// and adds the `nonce BLOB NOT NULL` column. This original DDL is
/// kept for reference but Migration 8 patches existing databases.
pub const CREATE_FOLDERS: &'static str = r#"
    CREATE TABLE IF NOT EXISTS folders (
        id TEXT PRIMARY KEY,
        name TEXT NOT NULL,
        parent_id TEXT,
        created_at TEXT NOT NULL DEFAULT (datetime('now')),
        updated_at TEXT NOT NULL DEFAULT (datetime('now')),
        FOREIGN KEY (parent_id) REFERENCES folders(id) ON DELETE CASCADE
    );
"#;

/// Migration 5: Create audit_events table + indexes.
pub const CREATE_AUDIT_EVENTS: &'static str = r#"
    CREATE TABLE IF NOT EXISTS audit_events (
        id TEXT PRIMARY KEY,
        category TEXT NOT NULL,
        action TEXT NOT NULL,
        subject TEXT NOT NULL,
        metadata_json TEXT,
        timestamp TEXT NOT NULL DEFAULT (datetime('now'))
    );
    CREATE INDEX IF NOT EXISTS idx_audit_events_category ON audit_events(category);
    CREATE INDEX IF NOT EXISTS idx_audit_events_timestamp ON audit_events(timestamp);
    CREATE INDEX IF NOT EXISTS idx_audit_events_action ON audit_events(action);
"#;

/// Migration 6: Create secure_notes table.
pub const CREATE_SECURE_NOTES: &'static str = r#"
    CREATE TABLE IF NOT EXISTS secure_notes (
        id TEXT PRIMARY KEY,
        title BLOB NOT NULL,
        content BLOB NOT NULL,
        folder_id TEXT,
        tags BLOB,
        nonce BLOB NOT NULL,
        created_at TEXT NOT NULL DEFAULT (datetime('now')),
        updated_at TEXT NOT NULL DEFAULT (datetime('now')),
        FOREIGN KEY (folder_id) REFERENCES folders(id) ON DELETE SET NULL
    );
"#;

/// Migration 7: Create file_entries table + vault_entries indexes.
pub const CREATE_FILE_ENTRIES_AND_INDEXES: &'static str = r#"
    CREATE TABLE IF NOT EXISTS file_entries (
        id TEXT PRIMARY KEY,
        filename BLOB NOT NULL,
        encrypted_path BLOB NOT NULL,
        file_size BLOB NOT NULL,
        mime_type BLOB,
        folder_id TEXT,
        nonce BLOB NOT NULL,
        created_at TEXT NOT NULL DEFAULT (datetime('now')),
        updated_at TEXT NOT NULL DEFAULT (datetime('now')),
        FOREIGN KEY (folder_id) REFERENCES folders(id) ON DELETE SET NULL
    );
    CREATE INDEX IF NOT EXISTS idx_vault_entries_folder ON vault_entries(folder_id);
    CREATE INDEX IF NOT EXISTS idx_vault_entries_updated ON vault_entries(updated_at);
    CREATE INDEX IF NOT EXISTS idx_secure_notes_folder ON secure_notes(folder_id);
    CREATE INDEX IF NOT EXISTS idx_file_entries_folder ON file_entries(folder_id);
"#;

/// Migration 8: Fix folders table — add nonce column and convert
/// name from TEXT to encrypted BLOB.
///
/// The original folders schema stored folder names as plaintext TEXT.
/// This migration adds the `nonce` column required for AES-256-GCM
/// encryption and converts the table to use BLOB for the name field.
///
/// Since SQLite doesn't support ALTER COLUMN, we recreate the table:
/// 1. Create a new table with the correct schema
/// 2. Copy existing data (existing TEXT names remain readable as BLOB)
/// 3. Drop the old table
/// 4. Rename the new table
pub const FIX_FOLDERS_ENCRYPTION: &'static str = r#"
    -- Step 1: Create new folders table with correct schema
    CREATE TABLE IF NOT EXISTS folders_new (
        id TEXT PRIMARY KEY,
        name BLOB NOT NULL,
        parent_id TEXT,
        nonce BLOB NOT NULL DEFAULT X'000000000000000000000000',
        created_at TEXT NOT NULL DEFAULT (datetime('now')),
        updated_at TEXT NOT NULL DEFAULT (datetime('now')),
        FOREIGN KEY (parent_id) REFERENCES folders_new(id) ON DELETE CASCADE
    );

    -- Step 2: Copy existing data (TEXT name becomes BLOB automatically in SQLite)
    INSERT INTO folders_new (id, name, parent_id, created_at, updated_at)
    SELECT id, name, parent_id, created_at, updated_at FROM folders;

    -- Step 3: Drop old table
    DROP TABLE folders;

    -- Step 4: Rename new table
    ALTER TABLE folders_new RENAME TO folders;
"#;



/// A migration: its number, name, checksum and SQL.
#[derive(Debug, Clone)]
pub struct Migration {
    /// Sequential migration number.
    pub version: u32,
    /// Human-readable name.
    pub name: &'static str,
    /// Checksum recorded with the migration, to detect tampering.
    pub checksum: &'static str,
    /// The SQL the migration runs.
    pub sql: &'static str,
}

/// Migration number `v` (from 1 to 8) with its name, checksum and SQL.
pub open spec fn is_migration(m: Migration, v: int) -> bool {
    &&& m.version == v
    &&& if v == 1 {
        m.name@ == "create_schema_version_table"@ && m.checksum@ == "sha256:a1b2c3d4_schema_version"@
            && m.sql == CREATE_VERSION_TABLE
    } else if v == 2 {
        m.name@ == "create_vault_meta_table"@ && m.checksum@ == "sha256:e5f6g7h8_vault_meta_v2"@ && m.sql
            == CREATE_VAULT_META
    } else if v == 3 {
        m.name@ == "create_vault_entries_table"@ && m.checksum@ == "sha256:i9j0k1l2_vault_entries_v2"@
            && m.sql == CREATE_VAULT_ENTRIES
    } else if v == 4 {
        m.name@ == "create_folders_table"@ && m.checksum@ == "sha256:m3n4o5p6_folders"@ && m.sql
            == CREATE_FOLDERS
    } else if v == 5 {
        m.name@ == "create_audit_events_table"@ && m.checksum@ == "sha256:q7r8s9t0_audit_events_v2"@
            && m.sql == CREATE_AUDIT_EVENTS
    } else if v == 6 {
        m.name@ == "create_secure_notes_table"@ && m.checksum@ == "sha256:u1v2w3x4_secure_notes"@ && m.sql
            == CREATE_SECURE_NOTES
    } else if v == 7 {
        m.name@ == "create_file_entries_and_indexes"@ && m.checksum@ == "sha256:y5z6a7b8_file_entries"@
            && m.sql == CREATE_FILE_ENTRIES_AND_INDEXES
    } else if v == 8 {
        m.name@ == "fix_folders_encryption"@ && m.checksum@ == "sha256:c9d0e1f2_folders_v2_encrypted"@
            && m.sql == FIX_FOLDERS_ENCRYPTION
    } else {
        false
    }
}

/// The migrations from number `first` up to the current schema version, in
/// order.
pub open spec fn migrations_from(ms: Seq<Migration>, first: int) -> bool {
    &&& ms.len() == (if first > CURRENT_SCHEMA_VERSION + 1 {
        0
    } else {
        CURRENT_SCHEMA_VERSION + 1 - first
    })
    &&& forall|i: int| 0 <= i < ms.len() ==> is_migration(#[trigger] ms[i], first + i)
}

fn migration(v: u32) -> (m: Migration)
    requires
        1 <= v <= CURRENT_SCHEMA_VERSION,
    ensures
        is_migration(m, v as int),
{
    if v == 1 {
        Migration {
            version: 1,
            name: "create_schema_version_table",
            checksum: "sha256:a1b2c3d4_schema_version",
            sql: CREATE_VERSION_TABLE,
        }
    } else if v == 2 {
        Migration {
            version: 2,
            name: "create_vault_meta_table",
            checksum: "sha256:e5f6g7h8_vault_meta_v2",
            sql: CREATE_VAULT_META,
        }
    } else if v == 3 {
        Migration {
            version: 3,
            name: "create_vault_entries_table",
            checksum: "sha256:i9j0k1l2_vault_entries_v2",
            sql: CREATE_VAULT_ENTRIES,
        }
    } else if v == 4 {
        Migration {
            version: 4,
            name: "create_folders_table",
            checksum: "sha256:m3n4o5p6_folders",
            sql: CREATE_FOLDERS,
        }
    } else if v == 5 {
        Migration {
            version: 5,
            name: "create_audit_events_table",
            checksum: "sha256:q7r8s9t0_audit_events_v2",
            sql: CREATE_AUDIT_EVENTS,
        }
    } else if v == 6 {
        Migration {
            version: 6,
            name: "create_secure_notes_table",
            checksum: "sha256:u1v2w3x4_secure_notes",
            sql: CREATE_SECURE_NOTES,
        }
    } else if v == 7 {
        Migration {
            version: 7,
            name: "create_file_entries_and_indexes",
            checksum: "sha256:y5z6a7b8_file_entries",
            sql: CREATE_FILE_ENTRIES_AND_INDEXES,
        }
    } else {
        Migration {
            version: 8,
            name: "fix_folders_encryption",
            checksum: "sha256:c9d0e1f2_folders_v2_encrypted",
            sql: FIX_FOLDERS_ENCRYPTION,
        }
    }
}

/// The migrations that follow version `current`, in order: those a
/// database at that version still has to run.
pub fn pending_migrations(current: u32) -> (r: Vec<Migration>)
    ensures
        migrations_from(r@, current + 1),
{
    let mut r: Vec<Migration> = Vec::new();
    if current >= CURRENT_SCHEMA_VERSION {
        return r;
    }
    let mut v: u32 = current + 1;
    while v <= CURRENT_SCHEMA_VERSION
        invariant
            current < CURRENT_SCHEMA_VERSION,
            current + 1 <= v <= CURRENT_SCHEMA_VERSION + 1,
            r@.len() == v - current - 1,
            forall|i: int| 0 <= i < r@.len() ==> is_migration(#[trigger] r@[i], current + 1 + i),
        decreases CURRENT_SCHEMA_VERSION + 1 - v,
    {
        r.push(migration(v));
        v = v + 1;
    }
    r
}

/// All migrations, in ascending version order.
pub fn get_migrations() -> (r: Vec<Migration>)
    ensures
        migrations_from(r@, 1),
{
    pending_migrations(0)
}

/// The schema version after all migrations.
pub fn current_schema_version() -> (v: u32)
    ensures
        v == CURRENT_SCHEMA_VERSION,
{
    CURRENT_SCHEMA_VERSION
}

/// The migration list is in strictly ascending version order and ends at
/// the current schema version.
pub proof fn law_migrations_ordered(ms: Seq<Migration>)
    requires
        migrations_from(ms, 1),
    ensures
        forall|i: int, j: int| 0 <= i < j < ms.len() ==> ms[i].version < ms[j].version,
        ms.len() > 0 && ms.last().version == CURRENT_SCHEMA_VERSION,
        forall|i: int| 0 <= i < ms.len() ==> ms[i].version <= CURRENT_SCHEMA_VERSION,
{
    assert(is_migration(ms[ms.len() - 1], ms.len() as int));
    assert forall|i: int, j: int| 0 <= i < j < ms.len() implies ms[i].version < ms[j].version by {
        assert(is_migration(ms[i], 1 + i));
        assert(is_migration(ms[j], 1 + j));
    }
    assert forall|i: int| 0 <= i < ms.len() implies ms[i].version <= CURRENT_SCHEMA_VERSION by {
        assert(is_migration(ms[i], 1 + i));
    }
}

/// What a recorded migration says about the database's history: `Ok(true)`
/// when the version is known and its checksum matches, `Ok(false)` when the
/// version is unknown (a newer release may have written it), and a database
/// error when the checksum differs.
pub open spec fn record_check(version: u32, name: Seq<char>, checksum: Seq<char>) -> Result<bool, Seq<char>> {
    if 1 <= version <= CURRENT_SCHEMA_VERSION {
        let expected = choose|m: Migration| is_migration(m, version as int);
        if expected.checksum@ == checksum {
            Ok(true)
        } else {
            Err(
                "Migration v"@ + decimal(version as nat) + " '"@ + name + "' checksum mismatch: expected '"@
                    + expected.checksum@ + "', got '"@ + checksum + "'"@,
            )
        }
    } else {
        Ok(false)
    }
}

/// Checks one row of the applied-migration history against the expected
/// migrations.
pub fn check_migration_record(version: u32, name: &str, checksum: &str) -> (r: Result<bool, KestrelError>)
    ensures
        match record_check(version, name@, checksum@) {
            Ok(b) => r == Ok::<bool, KestrelError>(b),
            Err(m) => r matches Err(e) && e is Database && e.message() == m,
        },
{
    if version < 1 || version > CURRENT_SCHEMA_VERSION {
        return Ok(false);
    }
    let m = migration(version);
    proof {
        let expected = choose|x: Migration| is_migration(x, version as int);
        assert(is_migration(expected, version as int));
        assert(expected.checksum@ == m.checksum@);
    }
    if str_eq(m.checksum, checksum) {
        Ok(true)
    } else {
        let mut msg = String::from_str("Migration v");
        push_decimal(&mut msg, version as u64);
        msg.append(" '");
        msg.append(name);
        msg.append("' checksum mismatch: expected '");
        msg.append(m.checksum);
        msg.append("', got '");
        msg.append(checksum);
        msg.append("'");
        Err(KestrelError::Database(msg))
    }
}

/// The first failure among the applied-migration rows from position `i`
/// on, or `Ok` when every row is known with a matching checksum or is
/// unknown.
pub open spec fn history_check(applied: Seq<(u32, String, String)>, i: int) -> Result<(), Seq<char>>
    decreases applied.len() - i,
{
    if i < 0 || i >= applied.len() {
        Ok(())
    } else {
        match record_check(applied[i].0, applied[i].1@, applied[i].2@) {
            Err(m) => Err(m),
            Ok(_) => history_check(applied, i + 1),
        }
    }
}

/// Checks the applied-migration history (version, name, checksum), in
/// order: the first row whose version is known but whose checksum differs
/// fails the check with a database error; unknown versions (from a newer
/// release) pass.
pub fn verify_migration_history(applied: &[(u32, String, String)]) -> (r: Result<(), KestrelError>)
    ensures
        match history_check(applied@, 0) {
            Ok(()) => r is Ok,
            Err(m) => r matches Err(e) && e is Database && e.message() == m,
        },
{
    let mut i: usize = 0;
    while i < applied.len()
        invariant
            i <= applied.len(),
            history_check(applied@, 0) == history_check(applied@, i as int),
        decreases applied.len() - i,
    {
        let row = &applied[i];
        match check_migration_record(row.0, row.1.as_str(), row.2.as_str()) {
            Err(e) => {
                return Err(e);
            },
            Ok(_) => {},
        }
        i = i + 1;
    }
    Ok(())
}

/// A history made of the records that applying migrations writes
/// (each row's version, with that migration's checksum) passes the check.
pub proof fn law_recorded_history_verifies(applied: Seq<(u32, String, String)>, ms: Seq<Migration>)
    requires
        ms.len() == applied.len(),
        forall|i: int|
            0 <= i < applied.len() ==> is_migration(#[trigger] ms[i], applied[i].0 as int) && applied[i].2@
                == ms[i].checksum@,
    ensures
        history_check(applied, 0) is Ok,
{
    lemma_recorded_history_from(applied, ms, 0);
}

proof fn lemma_recorded_history_from(applied: Seq<(u32, String, String)>, ms: Seq<Migration>, i: int)
    requires
        0 <= i <= applied.len(),
        ms.len() == applied.len(),
        forall|k: int|
            0 <= k < applied.len() ==> is_migration(#[trigger] ms[k], applied[k].0 as int) && applied[k].2@
                == ms[k].checksum@,
    ensures
        history_check(applied, i) is Ok,
    decreases applied.len() - i,
{
    if i < applied.len() {
        lemma_recorded_history_from(applied, ms, i + 1);
        let v = applied[i].0;
        assert(is_migration(ms[i], v as int));
        let expected = choose|m: Migration| is_migration(m, v as int);
        assert(is_migration(expected, v as int));
        assert(expected.checksum@ == ms[i].checksum@);
    }
}

/// The verdict on the answer of SQLite's integrity check: "ok" passes,
/// anything else is a database error that quotes it.
pub fn integrity_verdict(result: &str) -> (r: Result<(), KestrelError>)
    ensures
        result@ == "ok"@ ==> r is Ok,
        result@ != "ok"@ ==> (r matches Err(e) && e is Database && e.message()
            == "Database integrity check failed: "@ + result@),
{
    if str_eq(result, "ok") {
        Ok(())
    } else {
        let mut msg = String::from_str("Database integrity check failed: ");
        msg.append(result);
        Err(KestrelError::Database(msg))
    }
}

/// The violations of the rows of SQLite's foreign-key check (table, row
/// id, referenced table, key index), in order.
pub fn foreign_key_violations(rows: Vec<(String, i64, String, i64)>) -> (v: Vec<ForeignKeyViolation>)
    ensures
        v@.len() == rows@.len(),
        forall|k: int|
            0 <= k < rows@.len() ==> {
                &&& (#[trigger] v@[k]).table == rows@[k].0
                &&& v@[k].rowid == rows@[k].1
                &&& v@[k].parent == rows@[k].2
                &&& v@[k].fk_index == rows@[k].3
            },
{
    let ghost orig = rows@;
    let mut rest = rows;
    let mut v: Vec<ForeignKeyViolation> = Vec::new();
    let ghost mut k: int = 0;
    while rest.len() > 0
        invariant
            0 <= k <= orig.len(),
            rest@ == orig.skip(k),
            v@.len() == k,
            forall|j: int|
                0 <= j < k ==> {
                    &&& (#[trigger] v@[j]).table == orig[j].0
                    &&& v@[j].rowid == orig[j].1
                    &&& v@[j].parent == orig[j].2
                    &&& v@[j].fk_index == orig[j].3
                },
        decreases rest.len(),
    {
        let (table, rowid, parent, fk_index) = rest.remove(0);
        v.push(ForeignKeyViolation { table, rowid, parent, fk_index });
        proof {
            k = k + 1;
            assert(rest@ =~= orig.skip(k));
        }
    }
    v
}


/// A foreign-key violation reported by the database.
#[derive(Debug, Clone)]
pub struct ForeignKeyViolation {
    /// Table holding the reference.
    pub table: String,
    /// Row id of the offending row.
    pub rowid: i64,
    /// Referenced table.
    pub parent: String,
    /// Index of the foreign key within the table definition.
    pub fk_index: i64,
}

/// Page statistics of the database file.
#[derive(Debug, Clone, Copy, PartialEq, Eq, Structural)]
pub struct PageStats {
    /// Number of pages.
    pub total_pages: i64,
    /// Bytes per page.
    pub page_size_bytes: i64,
    /// Number of free pages.
    pub free_pages: i64,
    /// Number of used pages.
    pub used_pages: i64,
    /// Total size in bytes.
    pub total_size_bytes: i64,
    /// Free space in bytes.
    pub free_size_bytes: i64,
}

// ── rendering sizes ────────────────────────────────────────────────

/// Two to the power `n`.
pub open spec fn two_pow(n: nat) -> nat
    decreases n,
{
    if n == 0 {
        1
    } else {
        2 * two_pow((n - 1) as nat)
    }
}

/// Number of binary digits of `x` (0 for 0).
pub open spec fn bit_length(x: nat) -> nat
    decreases x,
{
    if x == 0 {
        0
    } else {
        1 + bit_length(x / 2)
    }
}

/// `n / 2^s` rounded to the nearest integer, ties to even.
pub open spec fn round_shift(n: nat, s: nat) -> nat {
    let d = two_pow(s);
    let q = n / d;
    let r = n % d;
    if s == 0 {
        n
    } else if 2 * r > d {
        q + 1
    } else if 2 * r < d {
        q
    } else if q % 2 == 0 {
        q
    } else {
        q + 1
    }
}

/// The value of `x` as a double-precision float, as `(m, e)` with value
/// `m * 2^e`: exact below 2^53, otherwise rounded to 53 significant bits.
pub open spec fn as_double(x: nat) -> (nat, nat) {
    if x < two_pow(53) {
        (x, 0)
    } else {
        let e = (bit_length(x) - 53) as nat;
        (round_shift(x, e), e)
    }
}

/// `x` (as a double) divided by `2^k`, in hundredths, rounded to the
/// nearest hundredth with ties to even.
pub open spec fn hundredths(x: nat, k: nat) -> nat {
    let (m, e) = as_double(x);
    if e >= k {
        m * 100 * two_pow((e - k) as nat)
    } else {
        round_shift(m * 100, (k - e) as nat)
    }
}

/// Two decimal places of a hundredths count.
pub open spec fn two_places(h: nat) -> Seq<char> {
    decimal(h / 100) + seq!['.', digit_char(((h % 100) / 10) as int), digit_char((h % 10) as int)]
}

/// A byte count for people: whole bytes below 1 KiB, otherwise KiB, MiB or
/// GiB with two decimals (1024-based units labelled KB, MB, GB).
pub open spec fn human_bytes(b: nat) -> Seq<char> {
    if b >= two_pow(30) {
        two_places(hundredths(b, 30)) + " GB"@
    } else if b >= two_pow(20) {
        two_places(hundredths(b, 20)) + " MB"@
    } else if b >= two_pow(10) {
        two_places(hundredths(b, 10)) + " KB"@
    } else {
        decimal(b) + " bytes"@
    }
}

proof fn lemma_two_pow_grows(a: nat, b: nat)
    requires
        a <= b,
    ensures
        two_pow(a) <= two_pow(b),
        two_pow(a) >= 1,
    decreases b,
{
    if b > a {
        lemma_two_pow_grows(a, (b - 1) as nat);
    }
    if a > 0 {
        lemma_two_pow_grows(0, (a - 1) as nat);
    }
}

proof fn lemma_two_pow_add(a: nat, b: nat)
    ensures
        two_pow(a + b) == two_pow(a) * two_pow(b),
    decreases a,
{
    if a > 0 {
        lemma_two_pow_add((a - 1) as nat, b);
        assert(two_pow(a) == 2 * two_pow((a - 1) as nat));
        assert(two_pow(a + b) == 2 * two_pow((a - 1 + b) as nat));
        let x = two_pow((a - 1) as nat);
        let y = two_pow(b);
        assert(2 * (x * y) == (2 * x) * y) by (nonlinear_arith);
    } else {
        assert(two_pow(0) == 1);
        assert(1 * two_pow(b) == two_pow(b));
    }
}

proof fn lemma_two_pow_values()
    ensures
        two_pow(10) == 1024,
        two_pow(20) == 1048576,
        two_pow(30) == 1073741824,
        two_pow(53) == 9007199254740992,
        two_pow(64) == 18446744073709551616,
        two_pow(72) == 4722366482869645213696,
{
    reveal_with_fuel(two_pow, 11);
    assert(two_pow(1) == 2);
    assert(two_pow(3) == 8);
    assert(two_pow(8) == 256);
    assert(two_pow(10) == 1024);
    lemma_two_pow_add(10, 10);
    assert(two_pow(20) == 1048576);
    lemma_two_pow_add(20, 10);
    assert(two_pow(30) == 1073741824);
    lemma_two_pow_add(30, 20);
    assert(two_pow(50) == 1125899906842624);
    lemma_two_pow_add(50, 3);
    assert(two_pow(53) == 9007199254740992);
    lemma_two_pow_add(30, 30);
    assert(two_pow(60) == 1152921504606846976);
    lemma_two_pow_add(60, 3);
    assert(two_pow(63) == 9223372036854775808);
    lemma_two_pow_add(63, 1);
    assert(two_pow(64) == 18446744073709551616);
    lemma_two_pow_add(64, 8);
    assert(two_pow(72) == 4722366482869645213696);
}

proof fn lemma_round_shift_le(n: nat, s: nat)
    requires
        s >= 1,
    ensures
        round_shift(n, s) <= n,
{
    let d = two_pow(s);
    lemma_two_pow_grows(1, s);
    reveal_with_fuel(two_pow, 2);
    let q = n / d;
    let r = n % d;
    assert(q * d + r == n && 0 <= r < d) by (nonlinear_arith)
        requires
            d >= 2,
            q == n / d,
            r == n % d,
    ;
    assert(q * 2 <= n) by (nonlinear_arith)
        requires
            q * d + r == n,
            d >= 2,
            r >= 0,
            q >= 0,
    ;
}

/// `2^s` for `s` up to 64.
fn two_pow_exec(s: u32) -> (d: u128)
    requires
        s <= 64,
    ensures
        d == two_pow(s as nat),
{
    proof {
        lemma_two_pow_values();
    }
    let mut d: u128 = 1;
    let mut i: u32 = 0;
    while i < s
        invariant
            i <= s <= 64,
            d == two_pow(i as nat),
            two_pow(64) == 18446744073709551616,
        decreases s - i,
    {
        proof {
            lemma_two_pow_grows((i + 1) as nat, 64);
        }
        d = d * 2;
        i = i + 1;
    }
    d
}

fn round_shift_exec(n: u128, s: u32) -> (r: u128)
    requires
        1 <= s <= 64,
        n < two_pow(72),
    ensures
        r == round_shift(n as nat, s as nat),
{
    proof {
        lemma_two_pow_values();
        lemma_round_shift_le(n as nat, s as nat);
        lemma_two_pow_grows(1, s as nat);
        lemma_two_pow_grows(s as nat, 64);
    }
    let d = two_pow_exec(s);
    let q = n / d;
    let r = n % d;
    if 2 * r > d {
        q + 1
    } else if 2 * r < d {
        q
    } else if q % 2 == 0 {
        q
    } else {
        q + 1
    }
}

fn bit_length_exec(x: u64) -> (l: u32)
    ensures
        l == bit_length(x as nat),
{
    proof {
        lemma_two_pow_values();
        lemma_bit_length_bound(x as nat, 64);
    }
    let mut y = x;
    let mut l: u32 = 0;
    while y > 0
        invariant
            bit_length(x as nat) == l + bit_length(y as nat),
            bit_length(x as nat) <= 64,
        decreases y,
    {
        y = y / 2;
        l = l + 1;
    }
    l
}

proof fn lemma_bit_length_bound(x: nat, n: nat)
    requires
        x < two_pow(n),
    ensures
        bit_length(x) <= n,
    decreases n,
{
    if x > 0 {
        reveal_with_fuel(two_pow, 2);
        lemma_bit_length_bound(x / 2, (n - 1) as nat);
    }
}

proof fn lemma_bit_length_lower(x: nat)
    requires
        x > 0,
    ensures
        two_pow((bit_length(x) - 1) as nat) <= x,
    decreases x,
{
    if x >= 2 {
        lemma_bit_length_lower(x / 2);
        let n = bit_length(x / 2);
        assert(n >= 1);
        assert(bit_length(x) == 1 + n);
        assert(two_pow(n) == 2 * two_pow((n - 1) as nat));
    } else {
        assert(bit_length(0) == 0);
        assert(bit_length(x) == 1);
    }
}

proof fn lemma_bit_length_upper(x: nat)
    ensures
        x < two_pow(bit_length(x)),
    decreases x,
{
    if x > 0 {
        lemma_bit_length_upper(x / 2);
        assert(two_pow(bit_length(x)) == 2 * two_pow(bit_length(x / 2)));
    }
}

/// The double value of a byte count, divided by `2^k`, in hundredths.
fn hundredths_exec(x: u64, k: u32) -> (h: u128)
    requires
        k == 10 || k == 20 || k == 30,
        k == 30 || x < two_pow((k + 10) as nat),
    ensures
        h == hundredths(x as nat, k as nat),
        h / 100 <= u64::MAX,
{
    proof {
        lemma_two_pow_values();
    }
    let mut m: u128 = x as u128;
    let mut e: u32 = 0;
    if x >= 9007199254740992 {
        let l = bit_length_exec(x);
        proof {
            lemma_bit_length_upper(x as nat);
            lemma_bit_length_bound(x as nat, 64);
            if l < 54 {
                lemma_two_pow_grows(l as nat, 53);
            }
        }
        e = l - 53;
        m = round_shift_exec(x as u128, e);
        proof {
            lemma_round_shift_le(x as nat, e as nat);
        }
    }
    assert(as_double(x as nat) == (m as nat, e as nat));
    assert(e < k);
    assert(m < two_pow(64));
    let h = round_shift_exec(m * 100, k - e);
    proof {
        lemma_round_shift_le((m * 100) as nat, (k - e) as nat);
    }
    h
}

fn push_two_places(s: &mut String, h: u128)
    requires
        h / 100 <= u64::MAX,
    ensures
        final(s)@ == old(s)@ + two_places(h as nat),
{
    push_decimal(s, (h / 100) as u64);
    push_char(s, '.');
    let tens = ((h % 100) / 10) as u8;
    let ones = (h % 10) as u8;
    push_char(s, (tens + 48) as char);
    push_char(s, (ones + 48) as char);
    assert(final(s)@ =~= old(s)@ + two_places(h as nat));
}

impl PageStats {
    /// The statistics from SQLite's page count, page size and free-page
    /// count.
    pub fn from_pragmas(page_count: i64, page_size: i64, free_pages: i64) -> (p: Self)
        requires
            i64::MIN <= page_count - free_pages <= i64::MAX,
            i64::MIN <= page_count * page_size <= i64::MAX,
            i64::MIN <= free_pages * page_size <= i64::MAX,
        ensures
            p.total_pages == page_count,
            p.page_size_bytes == page_size,
            p.free_pages == free_pages,
            p.used_pages == page_count - free_pages,
            p.total_size_bytes == page_count * page_size,
            p.free_size_bytes == free_pages * page_size,
    {
        PageStats {
            total_pages: page_count,
            page_size_bytes: page_size,
            free_pages,
            used_pages: page_count - free_pages,
            total_size_bytes: page_count * page_size,
            free_size_bytes: free_pages * page_size,
        }
    }

    /// Whether VACUUM would help: more than 20% of the pages are free.
    pub fn needs_vacuum(&self) -> (r: bool)
        ensures
            r == (self.total_pages != 0 && (if self.total_pages > 0 {
                5 * self.free_pages > self.total_pages
            } else {
                5 * self.free_pages < self.total_pages
            })),
    {
        if self.total_pages == 0 {
            return false;
        }
        let five_free: i128 = 5 * (self.free_pages as i128);
        let total: i128 = self.total_pages as i128;
        if total > 0 {
            five_free > total
        } else {
            five_free < total
        }
    }

    /// The total size for people (see [`PageStats::format_bytes`]).
    pub fn human_total_size(&self) -> (s: String)
        ensures
            s@ == human_bytes((self.total_size_bytes as u64) as nat),
    {
        Self::format_bytes(self.total_size_bytes as u64)
    }

    /// The free space for people (see [`PageStats::format_bytes`]).
    pub fn human_free_size(&self) -> (s: String)
        ensures
            s@ == human_bytes((self.free_size_bytes as u64) as nat),
    {
        Self::format_bytes(self.free_size_bytes as u64)
    }

    /// Renders a byte count: "N bytes" below 1024, otherwise the count in
    /// KB, MB or GB (powers of 1024) with two decimals, as the standard
    /// formatting of the double-precision quotient prints it.
    pub fn format_bytes(bytes: u64) -> (s: String)
        ensures
            s@ == human_bytes(bytes as nat),
    {
        proof {
            lemma_two_pow_values();
        }
        let mut s = String::new();
        if bytes >= 1073741824 {
            let h = hundredths_exec(bytes, 30);
            push_two_places(&mut s, h);
            s.append(" GB");
        } else if bytes >= 1048576 {
            let h = hundredths_exec(bytes, 20);
            push_two_places(&mut s, h);
            s.append(" MB");
        } else if bytes >= 1024 {
            let h = hundredths_exec(bytes, 10);
            push_two_places(&mut s, h);
            s.append(" KB");
        } else {
            push_decimal(&mut s, bytes);
            s.append(" bytes");
        }
        s
    }
}

} // verus!
