//! Input checks of the entry, note and folder commands, run before any
//! key or database is touched. Each check reports the first failing field
//! in the order the fields are listed.

use vstd::prelude::*;
use vstd::string::*;
use vstd::utf8::encode_utf8;
use crate::commands::types::{
    checked, is_validation_error, string_field_failure, uuid_text_bytes, uuid_text_ok, validate_field, validate_uuid,
    ValidationRules,
};
use crate::crypto::random::uuid_with_bytes;
use crate::text::str_eq;
use crate::error::KestrelError;
use crate::scanner::password_strength::texts;

verus! {

/// Maximum length of a note's content, in bytes.
pub const MAX_CONTENT_LEN: usize = 100_000;

/// Maximum length of a tag, in bytes.
pub const MAX_TAG_LEN: usize = 64;

/// The standard text-field check: no NUL and at most `max` bytes (the
/// empty string passes).
pub open spec fn field_failure(s: Seq<char>, max: nat, name: Seq<char>) -> Option<Seq<char>> {
    string_field_failure(s, encode_utf8(s).len(), 0, max, name, true)
}

/// The check of an optional text field.
pub open spec fn opt_field_failure(s: Option<Seq<char>>, max: nat, name: Seq<char>) -> Option<Seq<char>> {
    match s {
        Some(t) => field_failure(t, max, name),
        None => None,
    }
}

/// The check of an identifier that must be a UUID.
pub open spec fn uuid_failure(s: Seq<char>, name: Seq<char>) -> Option<Seq<char>> {
    if uuid_text_ok(encode_utf8(s)) {
        None
    } else {
        Some(name + " must be a valid UUID"@)
    }
}

/// The check of an optional UUID field.
pub open spec fn opt_uuid_failure(s: Option<Seq<char>>, name: Seq<char>) -> Option<Seq<char>> {
    match s {
        Some(t) => uuid_failure(t, name),
        None => None,
    }
}

/// The first failing tag from position `i` on.
pub open spec fn tags_failure_from(tags: Seq<Seq<char>>, i: int) -> Option<Seq<char>>
    decreases tags.len() - i,
{
    if i < 0 || i >= tags.len() {
        None
    } else if field_failure(tags[i], MAX_TAG_LEN as nat, "Tag"@) is Some {
        field_failure(tags[i], MAX_TAG_LEN as nat, "Tag"@)
    } else {
        tags_failure_from(tags, i + 1)
    }
}

/// The first failing tag.
pub open spec fn tags_failure(tags: Seq<Seq<char>>) -> Option<Seq<char>> {
    tags_failure_from(tags, 0)
}

/// The first failure of a list of checks.
pub open spec fn first_failure(checks: Seq<Option<Seq<char>>>) -> Option<Seq<char>>
    decreases checks.len(),
{
    if checks.len() == 0 {
        None
    } else if checks[0] is Some {
        checks[0]
    } else {
        first_failure(checks.drop_first())
    }
}

/// The text of an optional `&str`.
pub open spec fn opt_str(o: Option<&str>) -> Option<Seq<char>> {
    match o {
        Some(s) => Some(s@),
        None => None,
    }
}

/// The password of a new entry must be present and at most 1024 bytes.
pub open spec fn new_password_failure(p: Seq<char>) -> Option<Seq<char>> {
    if p.len() == 0 {
        Some("Password is required"@)
    } else if encode_utf8(p).len() > 1024 {
        Some("Password must be at most 1024 characters"@)
    } else {
        None
    }
}

/// A replacement password may not be empty and is at most 1024 bytes.
pub open spec fn changed_password_failure(p: Option<Seq<char>>) -> Option<Seq<char>> {
    match p {
        Some(t) => if t.len() == 0 {
            Some("Password cannot be empty"@)
        } else if encode_utf8(t).len() > 1024 {
            Some("Password must be at most 1024 characters"@)
        } else {
            None
        },
        None => None,
    }
}

/// The result is `Ok` exactly when there is no failure, and otherwise the
/// validation error with the failure's message.
pub open spec fn reports(r: Result<(), KestrelError>, failure: Option<Seq<char>>) -> bool {
    match failure {
        Some(m) => r matches Err(e) && is_validation_error(e, m),
        None => r is Ok,
    }
}

fn check_opt_field(s: Option<&str>, max: usize, name: &str) -> (r: Result<(), KestrelError>)
    ensures
        reports(r, opt_field_failure(opt_str(s), max as nat, name@)),
{
    match s {
        Some(t) => validate_field(t, max, name),
        None => Ok(()),
    }
}

fn check_opt_uuid(s: Option<&str>, name: &str) -> (r: Result<(), KestrelError>)
    ensures
        reports(r, opt_uuid_failure(opt_str(s), name@)),
{
    match s {
        Some(t) => {
            validate_uuid(t, name)?;
            Ok(())
        },
        None => Ok(()),
    }
}

fn check_tags(tags: &[String]) -> (r: Result<(), KestrelError>)
    ensures
        reports(r, tags_failure(texts(tags@))),
{
    let ghost ts = texts(tags@);
    let mut i: usize = 0;
    while i < tags.len()
        invariant
            ts == texts(tags@),
            i <= tags@.len(),
            tags_failure(ts) == tags_failure_from(ts, i as int),
        decreases tags@.len() - i,
    {
        validate_field(tags[i].as_str(), MAX_TAG_LEN, "Tag")?;
        i = i + 1;
    }
    Ok(())
}

fn check_new_password(password: &str) -> (r: Result<(), KestrelError>)
    ensures
        reports(r, new_password_failure(password@)),
{
    if password.unicode_len() == 0 {
        return Err(KestrelError::Validation(String::from_str("Password is required")));
    }
    if password.as_bytes().len() > 1024 {
        return Err(KestrelError::Validation(String::from_str("Password must be at most 1024 characters")));
    }
    Ok(())
}

fn check_changed_password(password: Option<&str>) -> (r: Result<(), KestrelError>)
    ensures
        reports(r, changed_password_failure(opt_str(password))),
{
    match password {
        Some(p) => {
            if p.unicode_len() == 0 {
                return Err(KestrelError::Validation(String::from_str("Password cannot be empty")));
            }
            if p.as_bytes().len() > 1024 {
                return Err(KestrelError::Validation(String::from_str("Password must be at most 1024 characters")));
            }
            Ok(())
        },
        None => Ok(()),
    }
}

/// The checks of a new entry, in order: title, username, password, URL,
/// notes, folder, tags.
pub open spec fn new_entry_checks(
    title: Seq<char>,
    username: Seq<char>,
    password: Seq<char>,
    url: Option<Seq<char>>,
    notes: Option<Seq<char>>,
    folder_id: Option<Seq<char>>,
    tags: Seq<Seq<char>>,
) -> Seq<Option<Seq<char>>> {
    seq![
        field_failure(title, 256, "Title"@),
        field_failure(username, 256, "Username"@),
        new_password_failure(password),
        opt_field_failure(url, 2048, "URL"@),
        opt_field_failure(notes, 10000, "Notes"@),
        opt_uuid_failure(folder_id, "folder_id"@),
        tags_failure(tags),
    ]
}

/// Checks the fields of a new vault entry.
pub fn validate_new_entry(
    title: &str,
    username: &str,
    password: &str,
    url: Option<&str>,
    notes: Option<&str>,
    folder_id: Option<&str>,
    tags: &[String],
) -> (r: Result<(), KestrelError>)
    ensures
        reports(
            r,
            first_failure(
                new_entry_checks(title@, username@, password@, opt_str(url), opt_str(notes), opt_str(folder_id), texts(tags@)),
            ),
        ),
{
    let ghost cs = new_entry_checks(
        title@,
        username@,
        password@,
        opt_str(url),
        opt_str(notes),
        opt_str(folder_id),
        texts(tags@),
    );
    proof {
        reveal_with_fuel(first_failure, 8);
    }
    validate_field(title, ValidationRules::MAX_TITLE_LEN, "Title")?;
    validate_field(username, ValidationRules::MAX_USERNAME_LEN, "Username")?;
    check_new_password(password)?;
    check_opt_field(url, ValidationRules::MAX_URL_LEN, "URL")?;
    check_opt_field(notes, ValidationRules::MAX_NOTES_LEN, "Notes")?;
    check_opt_uuid(folder_id, "folder_id")?;
    check_tags(tags)?;
    Ok(())
}

/// The checks of an entry update, in order: id, title, username,
/// password, URL, notes, folder, tags (absent fields pass).
pub open spec fn entry_update_checks(
    id: Seq<char>,
    title: Option<Seq<char>>,
    username: Option<Seq<char>>,
    password: Option<Seq<char>>,
    url: Option<Seq<char>>,
    notes: Option<Seq<char>>,
    folder_id: Option<Seq<char>>,
    tags: Option<Seq<Seq<char>>>,
) -> Seq<Option<Seq<char>>> {
    seq![
        uuid_failure(id, "id"@),
        opt_field_failure(title, 256, "Title"@),
        opt_field_failure(username, 256, "Username"@),
        changed_password_failure(password),
        opt_field_failure(url, 2048, "URL"@),
        opt_field_failure(notes, 10000, "Notes"@),
        opt_uuid_failure(folder_id, "folder_id"@),
        match tags {
            Some(t) => tags_failure(t),
            None => None,
        },
    ]
}

/// The texts of optional tags.
pub open spec fn opt_tags(tags: Option<&[String]>) -> Option<Seq<Seq<char>>> {
    match tags {
        Some(t) => Some(texts(t@)),
        None => None,
    }
}

/// Checks the fields of an entry update.
pub fn validate_entry_update(
    id: &str,
    title: Option<&str>,
    username: Option<&str>,
    password: Option<&str>,
    url: Option<&str>,
    notes: Option<&str>,
    folder_id: Option<&str>,
    tags: Option<&[String]>,
) -> (r: Result<(), KestrelError>)
    ensures
        reports(
            r,
            first_failure(
                entry_update_checks(
                    id@,
                    opt_str(title),
                    opt_str(username),
                    opt_str(password),
                    opt_str(url),
                    opt_str(notes),
                    opt_str(folder_id),
                    opt_tags(tags),
                ),
            ),
        ),
{
    proof {
        reveal_with_fuel(first_failure, 9);
    }
    validate_uuid(id, "id")?;
    check_opt_field(title, ValidationRules::MAX_TITLE_LEN, "Title")?;
    check_opt_field(username, ValidationRules::MAX_USERNAME_LEN, "Username")?;
    check_changed_password(password)?;
    check_opt_field(url, ValidationRules::MAX_URL_LEN, "URL")?;
    check_opt_field(notes, ValidationRules::MAX_NOTES_LEN, "Notes")?;
    check_opt_uuid(folder_id, "folder_id")?;
    match tags {
        Some(t) => check_tags(t)?,
        None => {},
    }
    Ok(())
}

/// The checks of a new note, in order: title, content (required), folder,
/// tags.
pub open spec fn new_note_checks(
    title: Seq<char>,
    content: Seq<char>,
    folder_id: Option<Seq<char>>,
    tags: Seq<Seq<char>>,
) -> Seq<Option<Seq<char>>> {
    seq![
        field_failure(title, 256, "Title"@),
        if content.len() == 0 {
            Some("Content is required"@)
        } else {
            field_failure(content, MAX_CONTENT_LEN as nat, "Content"@)
        },
        opt_uuid_failure(folder_id, "folder_id"@),
        tags_failure(tags),
    ]
}

/// Checks the fields of a new secure note.
pub fn validate_new_note(title: &str, content: &str, folder_id: Option<&str>, tags: &[String]) -> (r: Result<
    (),
    KestrelError,
>)
    ensures
        reports(r, first_failure(new_note_checks(title@, content@, opt_str(folder_id), texts(tags@)))),
{
    proof {
        reveal_with_fuel(first_failure, 5);
    }
    validate_field(title, ValidationRules::MAX_TITLE_LEN, "Title")?;
    if content.unicode_len() == 0 {
        return Err(KestrelError::Validation(String::from_str("Content is required")));
    }
    validate_field(content, MAX_CONTENT_LEN, "Content")?;
    check_opt_uuid(folder_id, "folder_id")?;
    check_tags(tags)?;
    Ok(())
}

/// A folder id that takes a note out of its folder: "null" or empty.
pub open spec fn is_folder_clearing(s: Seq<char>) -> bool {
    s == "null"@ || s.len() == 0
}

/// The check of the folder of a note update: absent, clearing, or a UUID.
pub open spec fn note_folder_failure(folder_id: Option<Seq<char>>) -> Option<Seq<char>> {
    match folder_id {
        Some(t) => if is_folder_clearing(t) {
            None
        } else {
            uuid_failure(t, "folder_id"@)
        },
        None => None,
    }
}

/// The checks of a note update, in order: id, title, content, folder,
/// tags (absent fields pass).
pub open spec fn note_update_checks(
    id: Seq<char>,
    title: Option<Seq<char>>,
    content: Option<Seq<char>>,
    folder_id: Option<Seq<char>>,
    tags: Option<Seq<Seq<char>>>,
) -> Seq<Option<Seq<char>>> {
    seq![
        uuid_failure(id, "id"@),
        opt_field_failure(title, 256, "Title"@),
        opt_field_failure(content, MAX_CONTENT_LEN as nat, "Content"@),
        note_folder_failure(folder_id),
        match tags {
            Some(t) => tags_failure(t),
            None => None,
        },
    ]
}

/// What a note update does to the note's folder.
#[derive(Debug)]
pub enum FolderChange {
    /// The folder stays as it is.
    Keep,
    /// The note leaves its folder.
    Clear,
    /// The note moves to this folder.
    MoveTo(uuid::Uuid),
}

/// Checks the fields of a note update and settles its folder: no folder
/// id keeps the folder, "null" or an empty id takes the note out of its
/// folder, any other id must be a UUID and moves the note there.
pub fn validate_note_update(
    id: &str,
    title: Option<&str>,
    content: Option<&str>,
    folder_id: Option<&str>,
    tags: Option<&[String]>,
) -> (r: Result<FolderChange, KestrelError>)
    ensures
        checked(
            r,
            first_failure(note_update_checks(id@, opt_str(title), opt_str(content), opt_str(folder_id), opt_tags(tags))),
        ),
        r matches Ok(c) ==> match folder_id {
            None => c is Keep,
            Some(t) => if is_folder_clearing(t@) {
                c is Clear
            } else {
                c matches FolderChange::MoveTo(u) && u == uuid_with_bytes(uuid_text_bytes(t.spec_bytes()))
            },
        },
{
    proof {
        reveal_with_fuel(first_failure, 6);
    }
    validate_uuid(id, "id")?;
    check_opt_field(title, ValidationRules::MAX_TITLE_LEN, "Title")?;
    check_opt_field(content, MAX_CONTENT_LEN, "Content")?;
    let change = match folder_id {
        Some(t) => {
            if str_eq(t, "null") || t.unicode_len() == 0 {
                FolderChange::Clear
            } else {
                let u = validate_uuid(t, "folder_id")?;
                FolderChange::MoveTo(u)
            }
        },
        None => FolderChange::Keep,
    };
    match tags {
        Some(t) => check_tags(t)?,
        None => {},
    }
    Ok(change)
}

/// Checks a new folder: its name (at most 128 bytes, no NUL) and its
/// parent, when given, as a UUID.
pub fn validate_new_folder(name: &str, parent_id: Option<&str>) -> (r: Result<(), KestrelError>)
    ensures
        reports(
            r,
            first_failure(seq![field_failure(name@, 128, "Folder name"@), opt_uuid_failure(opt_str(parent_id), "parent_id"@)]),
        ),
{
    proof {
        reveal_with_fuel(first_failure, 3);
    }
    validate_field(name, ValidationRules::MAX_FOLDER_NAME_LEN, "Folder name")?;
    check_opt_uuid(parent_id, "parent_id")?;
    Ok(())
}

/// The page size of a listing or search: 50 unless given, at most 200.
pub open spec fn listing_limit(limit: Option<i64>) -> i64 {
    let l = match limit {
        Some(l) => l,
        None => 50,
    };
    if l < 200 {
        l
    } else {
        200
    }
}

/// The offset of a listing: 0 unless given, never negative.
pub open spec fn listing_offset(offset: Option<i64>) -> i64 {
    match offset {
        Some(o) => if o > 0 {
            o
        } else {
            0
        },
        None => 0,
    }
}

/// Checks a request to list entries and settles its page: the folder,
/// when given, must be a UUID; the limit defaults to 50 and is capped at
/// 200; the offset defaults to 0 and is raised to 0.
pub fn validate_list_request(folder_id: Option<&str>, limit: Option<i64>, offset: Option<i64>) -> (r: Result<
    (i64, i64),
    KestrelError,
>)
    ensures
        match opt_uuid_failure(opt_str(folder_id), "folder_id"@) {
            Some(m) => r matches Err(e) && is_validation_error(e, m),
            None => r == Ok::<(i64, i64), KestrelError>((listing_limit(limit), listing_offset(offset))),
        },
{
    check_opt_uuid(folder_id, "folder_id")?;
    let l: i64 = match limit {
        Some(l) => l,
        None => 50,
    };
    let o: i64 = match offset {
        Some(o) => o,
        None => 0,
    };
    Ok((if l < 200 { l } else { 200 }, if o > 0 { o } else { 0 }))
}

/// Checks a search request and settles its page size: the query must be
/// free of NUL and at most 256 bytes; the limit defaults to 50 and is
/// capped at 200.
pub fn validate_search_request(query: &str, limit: Option<i64>) -> (r: Result<i64, KestrelError>)
    ensures
        match field_failure(query@, 256, "Query"@) {
            Some(m) => r matches Err(e) && is_validation_error(e, m),
            None => r == Ok::<i64, KestrelError>(listing_limit(limit)),
        },
{
    validate_field(query, ValidationRules::MAX_QUERY_LEN, "Query")?;
    let l: i64 = match limit {
        Some(l) => l,
        None => 50,
    };
    Ok(if l < 200 { l } else { 200 })
}

} // verus!
