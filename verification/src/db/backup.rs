//! Backups of the encrypted database: naming, recognising backup files,
//! and the checks a backup file must pass before it is trusted.
//!
//! The database is encrypted with SQLCipher, so a copy of the file is
//! itself encrypted; the key is never stored with the backup.

use vstd::prelude::*;
use vstd::string::*;
use crate::error::KestrelError;
use crate::text::{ends_with, starts_with};
use crate::time::{format_utc, now, rfc3339, rfc3339_text, utc_format_text};
use std::path::PathBuf;

verus! {

/// Metadata about a backup file.
#[derive(Debug)]
pub struct BackupInfo {
    /// Where the backup is.
    pub path: PathBuf,
    /// Size in bytes.
    pub file_size_bytes: u64,
    /// Creation time (ISO 8601).
    pub created_at: String,
    /// Schema version at backup time.
    pub schema_version: u32,
    /// Number of entries in the backup.
    pub entry_count: i64,
}

/// Result of a backup: the backup and whether it was checked afterwards.
#[derive(Debug)]
pub struct BackupResult {
    /// The created backup.
    pub info: BackupInfo,
    /// Whether the backup passed verification.
    pub verified: bool,
}

/// Backup operations.
pub struct DbBackup;

/// Prefix of every backup file name.
pub open spec fn backup_prefix() -> Seq<char> {
    "kestrel_vault_backup_"@
}

/// The backup file name for a date (YYYYMMDD) and time (HHMMSS).
pub open spec fn backup_name(date: Seq<char>, time: Seq<char>) -> Seq<char> {
    backup_prefix() + date + "_"@ + time + ".db"@
}

/// Whether a file name looks like a backup: the backup prefix and ".db".
pub open spec fn is_backup_name(name: Seq<char>) -> bool {
    &&& backup_prefix().len() <= name.len()
    &&& name.subrange(0, backup_prefix().len() as int) == backup_prefix()
    &&& ".db"@.len() <= name.len()
    &&& name.subrange(name.len() - ".db"@.len(), name.len() as int) == ".db"@
}

/// The snapshot statement for a backup path.
pub open spec fn vacuum_into_text(path: Seq<char>) -> Seq<char> {
    "VACUUM INTO '"@ + path + "'"@
}

/// The 16-byte header of a plain SQLite database: "SQLite format 3" and a
/// NUL byte.
pub open spec fn sqlite_magic() -> Seq<u8> {
    seq![83u8, 81, 76, 105, 116, 101, 32, 102, 111, 114, 109, 97, 116, 32, 51, 0]
}

/// What the checks on a backup file conclude, given whether it exists,
/// its size and how many header bytes could be read.
pub open spec fn backup_check(exists: bool, file_len: u64, header_read: usize) -> Result<bool, Seq<char>> {
    if !exists {
        Err("Backup file does not exist"@)
    } else if file_len == 0 {
        Err("Backup file is empty"@)
    } else if header_read < 16 {
        Err("Backup file is too small to be a valid SQLite database"@)
    } else {
        Ok(true)
    }
}

impl DbBackup {
    /// The verdict on a backup file from its existence, size and the
    /// number of header bytes read. The header's content is not required
    /// to match the plain SQLite magic: SQLCipher encrypts it.
    pub fn verify_backup_facts(exists: bool, file_len: u64, header_read: usize) -> (r: Result<bool, KestrelError>)
        ensures
            match backup_check(exists, file_len, header_read) {
                Ok(b) => r == Ok::<bool, KestrelError>(b),
                Err(m) => r matches Err(e) && e is Database && e.message() == m,
            },
    {
        if !exists {
            return Err(KestrelError::Database(String::from_str("Backup file does not exist")));
        }
        if file_len == 0 {
            return Err(KestrelError::Database(String::from_str("Backup file is empty")));
        }
        if header_read < 16 {
            return Err(
                KestrelError::Database(
                    String::from_str("Backup file is too small to be a valid SQLite database"),
                ),
            );
        }
        Ok(true)
    }

    /// The statement that writes a consistent snapshot of the open database
    /// to `path` (SQLite's `VACUUM INTO`); the snapshot keeps the SQLCipher
    /// encryption.
    pub fn vacuum_into_statement(path: &str) -> (s: String)
        ensures
            s@ == vacuum_into_text(path@),
    {
        let mut s = String::from_str("VACUUM INTO '");
        s.append(path);
        s.append("'");
        s
    }

    /// Metadata of a backup just written (its path, size, schema version
    /// and entry count), stamped with the current time in RFC 3339 form.
    pub fn backup_info_now(path: PathBuf, file_size_bytes: u64, schema_version: u32, entry_count: i64) -> (info:
        BackupInfo)
        ensures
            info.path == path,
            info.file_size_bytes == file_size_bytes,
            info.schema_version == schema_version,
            info.entry_count == entry_count,
            exists|secs: i64, nanos: u32| #[trigger] rfc3339_text(secs, nanos) == Some(info.created_at@),
    {
        let ts = now();
        let created_at = rfc3339(ts.secs, ts.nanos).unwrap();
        assert(rfc3339_text(ts.secs, ts.nanos) == Some(created_at@));
        BackupInfo { path, file_size_bytes, created_at, schema_version, entry_count }
    }

    /// The result of a backup from what was found of the written file: it
    /// counts as verified when the file has content.
    pub fn backup_outcome(info: BackupInfo) -> (r: BackupResult)
        ensures
            r.info == info,
            r.verified == (info.file_size_bytes > 0),
    {
        let verified = info.file_size_bytes > 0;
        BackupResult { info, verified }
    }

    /// Whether a header is the plain (unencrypted) SQLite header.
    pub fn is_plain_sqlite_header(header: &[u8; 16]) -> (r: bool)
        ensures
            r == (header@ == sqlite_magic()),
    {
        let magic: [u8; 16] = [83, 81, 76, 105, 116, 101, 32, 102, 111, 114, 109, 97, 116, 32, 51, 0];
        let mut i: usize = 0;
        while i < 16
            invariant
                i <= 16,
                magic@ == sqlite_magic(),
                forall|j: int| 0 <= j < i ==> header@[j] == magic@[j],
            decreases 16 - i,
        {
            if header[i] != magic[i] {
                return false;
            }
            i = i + 1;
        }
        assert(header@ =~= sqlite_magic());
        true
    }

    /// Whether a file name is a backup's (`kestrel_vault_backup_*.db`).
    pub fn is_backup_file_name(name: &str) -> (r: bool)
        ensures
            r == is_backup_name(name@),
    {
        starts_with(name, "kestrel_vault_backup_") && ends_with(name, ".db")
    }

    /// The backup file name for a date and a time:
    /// `kestrel_vault_backup_YYYYMMDD_HHMMSS.db`.
    pub fn backup_filename(date: &str, time: &str) -> (s: String)
        ensures
            s@ == backup_name(date@, time@),
    {
        let mut s = String::from_str("kestrel_vault_backup_");
        s.append(date);
        s.append("_");
        s.append(time);
        s.append(".db");
        s
    }

    /// The backup file name for the current UTC time.
    pub fn generate_backup_filename() -> (n: String)
        ensures
            exists|secs: i64, nanos: u32|
                {
                    &&& #[trigger] utc_format_text(secs, nanos, "%Y%m%d"@) matches Some(d)
                    &&& utc_format_text(secs, nanos, "%H%M%S"@) matches Some(t)
                    &&& n@ == backup_name(d, t)
                },
    {
        let ts = now();
        let date = format_utc(ts.secs, ts.nanos, "%Y%m%d").unwrap();
        let time = format_utc(ts.secs, ts.nanos, "%H%M%S").unwrap();
        let name = Self::backup_filename(date.as_str(), time.as_str());
        assert(utc_format_text(ts.secs, ts.nanos, "%Y%m%d"@) == Some(date@));
        name
    }
}

/// Every backup file name the library generates is recognised as a
/// backup when backups are listed.
pub proof fn law_generated_names_are_recognised(date: Seq<char>, time: Seq<char>)
    ensures
        is_backup_name(backup_name(date, time)),
{
    reveal_strlit("kestrel_vault_backup_");
    reveal_strlit("_");
    reveal_strlit(".db");
    let n = backup_name(date, time);
    assert(n.subrange(0, backup_prefix().len() as int) =~= backup_prefix());
    assert(n.subrange(n.len() - ".db"@.len(), n.len() as int) =~= ".db"@);
}

// ── ordering backups by age ────────────────────────────────────────

/// The first position at or after `from` whose modification time is
/// older than `t` (the length when there is none).
pub open spec fn first_older<T>(s: Seq<(T, i128)>, t: i128, from: int) -> int
    decreases s.len() - from,
{
    if from < 0 || from >= s.len() {
        s.len() as int
    } else if s[from].1 < t {
        from
    } else {
        first_older(s, t, from + 1)
    }
}

/// Inserts a backup into a list ordered newest first, after every backup
/// at least as new.
pub open spec fn insert_by_age<T>(s: Seq<(T, i128)>, x: (T, i128)) -> Seq<(T, i128)> {
    s.insert(first_older(s, x.1, 0), x)
}

/// Backups ordered by modification time, newest first; backups of equal
/// time keep their order.
pub open spec fn newest_first<T>(s: Seq<(T, i128)>) -> Seq<(T, i128)>
    decreases s.len(),
{
    if s.len() == 0 {
        s
    } else {
        insert_by_age(newest_first(s.drop_last()), s.last())
    }
}

/// The times never increase along the list.
pub open spec fn is_newest_first<T>(s: Seq<(T, i128)>) -> bool {
    forall|i: int, j: int| 0 <= i < j < s.len() ==> #[trigger] s[j].1 <= #[trigger] s[i].1
}

/// The items of a list of (item, time) pairs.
pub open spec fn items_of<T>(s: Seq<(T, i128)>) -> Seq<T> {
    s.map_values(|p: (T, i128)| p.0)
}

proof fn lemma_first_older<T>(s: Seq<(T, i128)>, t: i128, from: int)
    requires
        0 <= from <= s.len(),
    ensures
        from <= first_older(s, t, from) <= s.len(),
        forall|j: int| from <= j < first_older(s, t, from) ==> t <= #[trigger] s[j].1,
        first_older(s, t, from) < s.len() ==> s[first_older(s, t, from)].1 < t,
    decreases s.len() - from,
{
    if from < s.len() && !(s[from].1 < t) {
        lemma_first_older(s, t, from + 1);
    }
}

proof fn lemma_insert_keeps_order<T>(s: Seq<(T, i128)>, x: (T, i128))
    requires
        is_newest_first(s),
    ensures
        is_newest_first(insert_by_age(s, x)),
{
    lemma_first_older(s, x.1, 0);
    let p = first_older(s, x.1, 0);
    let r = insert_by_age(s, x);
    assert forall|i: int, j: int| 0 <= i < j < r.len() implies #[trigger] r[j].1 <= #[trigger] r[i].1 by {
        if j < p {
        } else if j == p {
        } else if i < p {
            assert(s[i].1 >= x.1);
            assert(s[p].1 < x.1);
            assert(s[j - 1].1 <= s[p].1 || j - 1 == p);
        } else if i == p {
            assert(s[p].1 < x.1);
            assert(s[j - 1].1 <= s[p].1 || j - 1 == p);
        } else {
            assert(s[j - 1].1 <= s[i - 1].1);
        }
    }
}

/// Ordering newest first gives a list whose times never increase.
pub proof fn law_newest_first_is_ordered<T>(s: Seq<(T, i128)>)
    ensures
        is_newest_first(newest_first(s)),
    decreases s.len(),
{
    if s.len() > 0 {
        law_newest_first_is_ordered(s.drop_last());
        lemma_insert_keeps_order(newest_first(s.drop_last()), s.last());
    }
}

/// Ordering newest first neither loses nor adds a backup.
pub proof fn law_newest_first_permutes<T>(s: Seq<(T, i128)>)
    ensures
        newest_first(s).to_multiset() == s.to_multiset(),
    decreases s.len(),
{
    broadcast use vstd::seq_lib::to_multiset_insert, vstd::seq_lib::to_multiset_build;

    if s.len() > 0 {
        law_newest_first_permutes(s.drop_last());
        let r = newest_first(s.drop_last());
        lemma_first_older(r, s.last().1, 0);
        assert(s.drop_last().push(s.last()) =~= s);
    }
}

fn insert_by_age_exec<T>(out: &mut Vec<(T, i128)>, x: (T, i128))
    ensures
        final(out)@ == insert_by_age(old(out)@, x),
{
    let mut j: usize = 0;
    while j < out.len() && !(out[j].1 < x.1)
        invariant
            j <= out.len(),
            out@ == old(out)@,
            first_older(out@, x.1, 0) == first_older(out@, x.1, j as int),
        decreases out.len() - j,
    {
        j = j + 1;
    }
    proof {
        lemma_first_older(out@, x.1, j as int);
    }
    out.insert(j, x);
}

impl DbBackup {
    /// Orders backups by modification time, newest first (backups of equal
    /// time keep their order). Each backup comes with its modification
    /// time in nanoseconds since the epoch, negative before it.
    pub fn order_newest_first(backups: Vec<(PathBuf, i128)>) -> (r: Vec<PathBuf>)
        ensures
            r@ == items_of(newest_first(backups@)),
    {
        let ghost orig = backups@;
        let mut rest = backups;
        let mut sorted: Vec<(PathBuf, i128)> = Vec::new();
        let ghost mut k: int = 0;
        while rest.len() > 0
            invariant
                0 <= k <= orig.len(),
                rest@ == orig.skip(k),
                sorted@ == newest_first(orig.take(k)),
            decreases rest.len(),
        {
            let x = rest.remove(0);
            proof {
                assert(orig.take(k + 1).drop_last() =~= orig.take(k));
                assert(orig.take(k + 1).last() == x);
            }
            insert_by_age_exec(&mut sorted, x);
            proof {
                k = k + 1;
                assert(rest@ =~= orig.skip(k));
            }
        }
        assert(orig.take(k) =~= orig);
        let ghost whole = sorted@;
        let mut out: Vec<PathBuf> = Vec::new();
        let ghost mut m: int = 0;
        while sorted.len() > 0
            invariant
                0 <= m <= whole.len(),
                sorted@ == whole.skip(m),
                out@ == items_of(whole.take(m)),
            decreases sorted.len(),
        {
            let (p, _t) = sorted.remove(0);
            out.push(p);
            proof {
                assert(items_of(whole.take(m + 1)) =~= items_of(whole.take(m)).push(whole[m].0));
                m = m + 1;
                assert(sorted@ =~= whole.skip(m));
            }
        }
        assert(whole.take(m) =~= whole);
        out
    }
}

} // verus!
