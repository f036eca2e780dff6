//! Vault statistics: counts gathered from the database, the one-line
//! summary, and folder nesting depth.

use vstd::prelude::*;
use vstd::string::*;
use crate::text::{decimal, decimal_int, push_decimal, push_decimal_i64, str_eq};

verus! {

/// Counts describing the whole vault.
#[derive(Debug, Clone, Copy, PartialEq, Eq, Structural)]
pub struct VaultStats {
    /// Number of entries.
    pub total_entries: i64,
    /// Entries with a TOTP secret.
    pub entries_with_totp: i64,
    /// Entries outside any folder.
    pub root_entries: i64,
    /// Number of folders.
    pub total_folders: i64,
    /// Folders without a parent.
    pub root_folders: i64,
    /// Deepest folder nesting (a root folder has depth 1).
    pub max_folder_depth: i64,
    /// Number of secure notes.
    pub total_notes: i64,
    /// Number of file attachments.
    pub total_files: i64,
    /// Number of audit events.
    pub total_audit_events: i64,
    /// Audit events in the last 24 hours.
    pub audit_events_last_24h: i64,
    /// Password reveals in the last 24 hours.
    pub password_reveals_last_24h: i64,
    /// Entries changed in the last 7 days.
    pub entries_modified_last_7d: i64,
    /// Entries never opened since creation.
    pub entries_never_accessed: i64,
    /// Applied schema version.
    pub schema_version: u32,
    /// Whether the key-derivation parameters are below current standards.
    pub kdf_needs_upgrade: bool,
}

/// Counts for one folder.
#[derive(Debug, Clone)]
pub struct FolderStats {
    /// The folder's identifier.
    pub folder_id: String,
    /// Entries in the folder.
    pub entry_count: i64,
    /// Notes in the folder.
    pub note_count: i64,
    /// Files in the folder.
    pub file_count: i64,
    /// Direct sub-folders.
    pub child_folder_count: i64,
}

/// Audit events of one category.
#[derive(Debug, Clone)]
pub struct AuditStats {
    /// The category.
    pub category: String,
    /// Number of events.
    pub count: i64,
    /// Timestamp of the latest event, if any.
    pub last_event: Option<String>,
}

/// The one-line summary of vault statistics.
pub open spec fn summary_text(s: VaultStats) -> Seq<char> {
    "Entries: "@ + decimal_int(s.total_entries as int) + " ("@ + decimal_int(s.entries_with_totp as int)
        + " TOTP) | Folders: "@ + decimal_int(s.total_folders as int) + " (depth "@ + decimal_int(
        s.max_folder_depth as int,
    ) + ") | Notes: "@ + decimal_int(s.total_notes as int) + " | Files: "@ + decimal_int(
        s.total_files as int,
    ) + " | Events: "@ + decimal_int(s.total_audit_events as int) + " | Schema: v"@ + decimal(
        s.schema_version as nat,
    ) + (if s.kdf_needs_upgrade {
        " [KDF UPGRADE NEEDED]"@
    } else {
        ""@
    })
}

impl VaultStats {
    /// One line: entries (with TOTP), folders (with depth), notes, files,
    /// events and schema version, flagged when the KDF needs an upgrade.
    pub fn summary(&self) -> (s: String)
        ensures
            s@ == summary_text(*self),
    {
        let mut s = String::from_str("Entries: ");
        push_decimal_i64(&mut s, self.total_entries);
        s.append(" (");
        push_decimal_i64(&mut s, self.entries_with_totp);
        s.append(" TOTP) | Folders: ");
        push_decimal_i64(&mut s, self.total_folders);
        s.append(" (depth ");
        push_decimal_i64(&mut s, self.max_folder_depth);
        s.append(") | Notes: ");
        push_decimal_i64(&mut s, self.total_notes);
        s.append(" | Files: ");
        push_decimal_i64(&mut s, self.total_files);
        s.append(" | Events: ");
        push_decimal_i64(&mut s, self.total_audit_events);
        s.append(" | Schema: v");
        push_decimal(&mut s, self.schema_version as u64);
        if self.kdf_needs_upgrade {
            s.append(" [KDF UPGRADE NEEDED]");
        } else {
            s.append("");
        }
        s
    }
}

impl FolderStats {
    /// Entries, notes and files in the folder together.
    pub fn total_items(&self) -> (n: i64)
        requires
            i64::MIN <= self.entry_count + self.note_count <= i64::MAX,
            i64::MIN <= self.entry_count + self.note_count + self.file_count <= i64::MAX,
        ensures
            n == self.entry_count + self.note_count + self.file_count,
    {
        self.entry_count + self.note_count + self.file_count
    }
}

// ── folder nesting ──────────────────────────────────────────────────

/// The deepest nesting reported; longer parent chains (and cycles) stop here.
pub const MAX_REPORTED_DEPTH: i64 = 100;

/// The folder links as texts: (folder id, parent id).
pub open spec fn link_texts(links: Seq<(String, Option<String>)>) -> Seq<(Seq<char>, Option<Seq<char>>)> {
    links.map_values(
        |l: (String, Option<String>)|
            (
                l.0@,
                match l.1 {
                    Some(p) => Some(p@),
                    None => None,
                },
            ),
    )
}

/// Index of the first link for folder `id`, if any.
pub open spec fn link_index(links: Seq<(Seq<char>, Option<Seq<char>>)>, id: Seq<char>) -> Option<int> {
    if exists|i: int| 0 <= i < links.len() && (#[trigger] links[i]).0 == id {
        Some(
            choose|i: int|
                0 <= i < links.len() && (#[trigger] links[i]).0 == id && forall|j: int|
                    0 <= j < i ==> (#[trigger] links[j]).0 != id,
        )
    } else {
        None
    }
}

/// The parent of folder `id`, if it has a link with a parent.
pub open spec fn parent_of(links: Seq<(Seq<char>, Option<Seq<char>>)>, id: Seq<char>) -> Option<Seq<char>> {
    match link_index(links, id) {
        Some(i) => links[i].1,
        None => None,
    }
}

/// Depth of folder `id` counted along its parent chain, stopping after
/// `budget` folders: 1 for a folder without a parent.
pub open spec fn depth_within(links: Seq<(Seq<char>, Option<Seq<char>>)>, id: Seq<char>, budget: nat) -> nat
    decreases budget,
{
    if budget <= 1 {
        1
    } else {
        match parent_of(links, id) {
            Some(p) => 1 + depth_within(links, p, (budget - 1) as nat),
            None => 1,
        }
    }
}

/// Depth of a folder in the hierarchy, capped at 100.
pub open spec fn folder_depth_spec(links: Seq<(Seq<char>, Option<Seq<char>>)>, id: Seq<char>) -> nat {
    depth_within(links, id, MAX_REPORTED_DEPTH as nat)
}

proof fn lemma_depth_bounds(links: Seq<(Seq<char>, Option<Seq<char>>)>, id: Seq<char>, budget: nat)
    requires
        budget >= 1,
    ensures
        1 <= depth_within(links, id, budget) <= budget,
    decreases budget,
{
    if budget > 1 {
        match parent_of(links, id) {
            Some(p) => lemma_depth_bounds(links, p, (budget - 1) as nat),
            None => {},
        }
    }
}

fn find_link(links: &[(String, Option<String>)], id: &str) -> (r: Option<usize>)
    ensures
        match r {
            Some(i) => link_index(link_texts(links@), id@) == Some(i as int) && i < links@.len(),
            None => link_index(link_texts(links@), id@) is None,
        },
{
    let ghost t = link_texts(links@);
    let mut i: usize = 0;
    while i < links.len()
        invariant
            t == link_texts(links@),
            i <= links@.len(),
            forall|j: int| 0 <= j < i ==> (#[trigger] t[j]).0 != id@,
        decreases links@.len() - i,
    {
        if str_eq(links[i].0.as_str(), id) {
            assert(t[i as int].0 == id@);
            let ghost c = choose|k: int|
                0 <= k < t.len() && (#[trigger] t[k]).0 == id@ && forall|j: int|
                    0 <= j < k ==> (#[trigger] t[j]).0 != id@;
            assert(exists|k: int|
                0 <= k < t.len() && (#[trigger] t[k]).0 == id@ && forall|j: int|
                    0 <= j < k ==> (#[trigger] t[j]).0 != id@) by {
                assert(0 <= i < t.len() && t[i as int].0 == id@);
            }
            proof {
                if c < i {
                    assert(t[c].0 != id@);
                } else if c > i {
                    assert(t[i as int].0 != id@);
                }
            }
            return Some(i);
        }
        i = i + 1;
    }
    None
}

impl VaultStats {
    /// Depth of a folder given every folder's (id, parent id): 1 for a
    /// root folder, one more per ancestor; chains longer than 100 (such as
    /// cycles) report 100. When a folder has several links, the first counts.
    pub fn folder_depth(id: &str, links: &[(String, Option<String>)]) -> (d: i64)
        ensures
            d == folder_depth_spec(link_texts(links@), id@),
            1 <= d <= MAX_REPORTED_DEPTH,
    {
        let ghost t = link_texts(links@);
        let mut cur: &str = id;
        let mut depth: i64 = 1;
        proof {
            lemma_depth_bounds(t, id@, 100);
        }
        while depth < MAX_REPORTED_DEPTH
            invariant
                t == link_texts(links@),
                1 <= depth <= MAX_REPORTED_DEPTH,
                depth_within(t, id@, 100) == (depth - 1) + depth_within(t, cur@, (100 - (depth - 1)) as nat),
            decreases MAX_REPORTED_DEPTH - depth,
        {
            match find_link(links, cur) {
                Some(i) => {
                    match &links[i].1 {
                        Some(p) => {
                            cur = p.as_str();
                            depth = depth + 1;
                        },
                        None => {
                            return depth;
                        },
                    }
                },
                None => {
                    return depth;
                },
            }
        }
        depth
    }

    /// The deepest folder nesting among the given links (0 when there are
    /// no folders).
    pub fn max_folder_depth(links: &[(String, Option<String>)]) -> (d: i64)
        ensures
            links@.len() == 0 ==> d == 0,
            forall|i: int|
                0 <= i < links@.len() ==> folder_depth_spec(link_texts(links@), (#[trigger] links@[i]).0@) <= d,
            links@.len() > 0 ==> exists|i: int|
                0 <= i < links@.len() && d == folder_depth_spec(link_texts(links@), (#[trigger] links@[i]).0@),
    {
        let mut best: i64 = 0;
        let mut k: usize = 0;
        while k < links.len()
            invariant
                k <= links@.len(),
                0 <= best <= MAX_REPORTED_DEPTH,
                k == 0 ==> best == 0,
                forall|i: int|
                    0 <= i < k ==> folder_depth_spec(link_texts(links@), (#[trigger] links@[i]).0@) <= best,
                k > 0 ==> exists|i: int|
                    0 <= i < k && best == folder_depth_spec(link_texts(links@), (#[trigger] links@[i]).0@),
            decreases links@.len() - k,
        {
            let d = Self::folder_depth(links[k].0.as_str(), links);
            if d > best {
                best = d;
            }
            k = k + 1;
        }
        best
    }
}

} // verus!
