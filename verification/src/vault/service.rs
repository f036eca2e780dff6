//! What the vault service stores for entries and secure notes: every
//! sensitive field sealed under the data key and bound to its record and
//! field name, built before the database write.
//!
//! In an update, a field left out keeps its stored value; a field given a
//! value is sealed with a fresh nonce; a field that may be emptied (an
//! entry's URL, notes and tags, a note's tags) is cleared when given an
//! empty value. Tags are stored as their JSON list, sealed.

use vstd::prelude::*;
use vstd::string::*;
use vstd::utf8::encode_utf8;
use crate::crypto::cipher::P_MAX;
use crate::crypto::envelope::{aad_bytes, seal_envelope, stores_sealed};
use crate::crypto::kdf::{with_detail, DerivedKey};
use crate::crypto::random::{random_uuid, random_vec, uuid_string, uuid_to_string};
use crate::error::{KestrelError, KestrelResult};
use crate::scanner::findings::views;
use crate::vault::entry::{CreateEntryRequest, UpdateEntryRequest};

verus! {

/// Whether an update's value clears the field instead of sealing it.
pub open spec fn clears_field(value: Seq<u8>, clears_when_empty: bool) -> bool {
    clears_when_empty && value.len() == 0
}

/// Whether `stored` is what a field holding `value` stores: the empty byte
/// string when the value clears the field, else the value sealed for the
/// field.
pub open spec fn sealed_or_cleared(
    stored: Seq<u8>,
    key: Seq<u8>,
    value: Seq<u8>,
    clears_when_empty: bool,
    entity_id: Seq<char>,
    field_name: Seq<char>,
) -> bool {
    if clears_field(value, clears_when_empty) {
        stored.len() == 0
    } else {
        stores_sealed(stored, key, value, entity_id, field_name)
    }
}

/// Whether `stored` is the new stored form of a text field after an update
/// that gives `value`: nothing (keep) when no value is given, else the
/// value's UTF-8 bytes sealed or cleared.
pub open spec fn text_update(
    stored: Option<Vec<u8>>,
    key: Seq<u8>,
    value: Option<String>,
    clears_when_empty: bool,
    entity_id: Seq<char>,
    field_name: Seq<char>,
) -> bool {
    match value {
        None => stored is None,
        Some(v) => stored matches Some(b) && sealed_or_cleared(
            b@,
            key,
            encode_utf8(v@),
            clears_when_empty,
            entity_id,
            field_name,
        ),
    }
}

/// The JSON array of a list of strings, as bytes (`serde_json::to_vec`, a
/// function of the strings alone).
pub uninterp spec fn json_strings(items: Seq<Seq<char>>) -> Seq<u8>;

/// Whether `stored` holds a tag list: empty for no tags, else the tags'
/// JSON list sealed for field `tags`.
pub open spec fn tags_stored(stored: Seq<u8>, key: Seq<u8>, tags: Seq<String>, entity_id: Seq<char>) -> bool {
    if tags.len() == 0 {
        stored.len() == 0
    } else {
        stores_sealed(stored, key, json_strings(views(tags)), entity_id, "tags"@)
    }
}

/// The stored folder reference of an optional folder.
pub open spec fn folder_text(folder: Option<uuid::Uuid>) -> Option<Seq<char>> {
    match folder {
        Some(u) => Some(uuid_string(u)),
        None => None,
    }
}

/// The text of an optional string.
pub open spec fn opt_view(o: Option<String>) -> Option<Seq<char>> {
    match o {
        Some(s) => Some(s@),
        None => None,
    }
}

/// The text of an optional optional string.
pub open spec fn opt_opt_view(o: Option<Option<String>>) -> Option<Option<Seq<char>>> {
    match o {
        Some(inner) => Some(opt_view(inner)),
        None => None,
    }
}

/// Serializes a list of strings as a JSON array (`serde_json::to_vec`).
///
/// The bytes are named `json_strings` of the strings' texts; an error
/// hands back serde_json's message. Nothing more is stated.
#[verifier::external_body]
fn json_string_list(items: &[String]) -> (r: Result<Vec<u8>, String>)
    ensures
        r matches Ok(b) ==> b@ == json_strings(views(items@)),
{
    match serde_json::to_vec(items) {
        Ok(b) => Ok(b),
        Err(e) => Err(e.to_string()),
    }
}

/// The JSON list of a record's tags; a failure is a `Serialization` error
/// "Failed to serialize tags: ...".
fn tags_json(tags: &[String]) -> (r: KestrelResult<Vec<u8>>)
    ensures
        r matches Ok(b) ==> b@ == json_strings(views(tags@)),
        r matches Err(e) ==> e is Serialization,
{
    match json_string_list(tags) {
        Ok(b) => Ok(b),
        Err(detail) => Err(KestrelError::Serialization(with_detail("Failed to serialize tags", detail))),
    }
}

/// Seals a value for field `field_name` of record `entity_id`, or clears
/// the field (an empty byte string) when the value is empty and
/// `clears_when_empty` holds. Sealing fails (`Crypto`) when AES-GCM refuses
/// the lengths or the random generator fails.
pub fn seal_or_clear(key: &DerivedKey, value: &[u8], clears_when_empty: bool, entity_id: &str, field_name: &str) -> (r:
    KestrelResult<Vec<u8>>)
    ensures
        r matches Ok(b) ==> sealed_or_cleared(b@, key.key@, value@, clears_when_empty, entity_id@, field_name@),
        clears_field(value@, clears_when_empty) ==> r is Ok,
        (!clears_field(value@, clears_when_empty) && (value@.len() > P_MAX || aad_bytes(entity_id@, field_name@).len()
            > P_MAX)) ==> r is Err,
        r matches Err(e) ==> e is Crypto,
{
    if clears_when_empty && value.len() == 0 {
        Ok(Vec::new())
    } else {
        let envelope = seal_envelope(key, value, entity_id, field_name)?;
        let bytes = envelope.to_bytes();
        assert(bytes@ == envelope.serialized());
        Ok(bytes)
    }
}

/// The new stored form of one encrypted field of record `entity_id` after
/// an update: `None` (keep what is stored) when the update gives no value;
/// otherwise the value sealed or cleared (see [`seal_or_clear`]).
pub fn encrypted_field_update(
    key: &DerivedKey,
    value: Option<&[u8]>,
    clears_when_empty: bool,
    entity_id: &str,
    field_name: &str,
) -> (r: KestrelResult<Option<Vec<u8>>>)
    ensures
        match value {
            None => r matches Ok(None),
            Some(v) => if clears_field(v@, clears_when_empty) {
                r matches Ok(Some(b)) && b@.len() == 0
            } else {
                &&& r matches Ok(o) ==> o matches Some(b) && stores_sealed(b@, key.key@, v@, entity_id@, field_name@)
                &&& (v@.len() > P_MAX || aad_bytes(entity_id@, field_name@).len() > P_MAX) ==> r is Err
                &&& r matches Err(e) ==> e is Crypto
            },
        },
{
    match value {
        None => Ok(None),
        Some(v) => {
            let b = seal_or_clear(key, v, clears_when_empty, entity_id, field_name)?;
            Ok(Some(b))
        },
    }
}

/// The new stored form of a text field (see [`encrypted_field_update`]).
fn text_field_update(
    key: &DerivedKey,
    value: &Option<String>,
    clears_when_empty: bool,
    entity_id: &str,
    field_name: &str,
) -> (r: KestrelResult<Option<Vec<u8>>>)
    ensures
        r matches Ok(o) ==> text_update(o, key.key@, *value, clears_when_empty, entity_id@, field_name@),
        r matches Err(e) ==> e is Crypto,
{
    match value {
        None => Ok(None),
        Some(v) => {
            let b = seal_or_clear(key, v.as_str().as_bytes(), clears_when_empty, entity_id, field_name)?;
            Ok(Some(b))
        },
    }
}

/// The stored form of a tag list: empty for no tags, else the sealed JSON
/// list.
fn tags_field(key: &DerivedKey, tags: &Vec<String>, entity_id: &str) -> (r: KestrelResult<Vec<u8>>)
    ensures
        r matches Ok(b) ==> tags_stored(b@, key.key@, tags@, entity_id@),
        r matches Err(e) ==> e is Crypto || e is Serialization,
{
    if tags.len() == 0 {
        Ok(Vec::new())
    } else {
        let json = tags_json(tags.as_slice())?;
        let envelope = seal_envelope(key, json.as_slice(), entity_id, "tags")?;
        let bytes = envelope.to_bytes();
        assert(bytes@ == envelope.serialized());
        Ok(bytes)
    }
}

/// The stored text of an optional folder.
fn folder_ref(folder: &Option<uuid::Uuid>) -> (r: Option<String>)
    ensures
        opt_view(r) == folder_text(*folder),
{
    match folder {
        Some(u) => Some(uuid_to_string(u)),
        None => None,
    }
}

/// What an entry update writes: the plain fields as given and, for each
/// encrypted field, its new stored form (`None` keeps the stored value).
#[derive(Debug)]
pub struct EncryptedEntryUpdate {
    /// New title.
    pub title: Option<String>,
    /// New username.
    pub username: Option<String>,
    /// New sealed password.
    pub encrypted_password: Option<Vec<u8>>,
    /// New sealed URL (empty: cleared).
    pub encrypted_url: Option<Vec<u8>>,
    /// New sealed notes (empty: cleared).
    pub encrypted_notes: Option<Vec<u8>>,
    /// New sealed TOTP secret (set separately, so never changed here).
    pub encrypted_totp_secret: Option<Vec<u8>>,
    /// New sealed tag list (empty: cleared).
    pub encrypted_tags: Option<Vec<u8>>,
    /// New folder (`Some(Some(id))` moves the entry).
    pub folder_id: Option<Option<String>>,
}

/// What a new entry stores: its id, the plain fields, and every encrypted
/// field sealed (or empty).
#[derive(Debug)]
pub struct EncryptedNewEntry {
    /// The entry's id, to which every sealed field is bound.
    pub id: String,
    /// Title.
    pub title: String,
    /// Username.
    pub username: String,
    /// Sealed password.
    pub encrypted_password: Vec<u8>,
    /// Sealed URL (empty: none).
    pub encrypted_url: Vec<u8>,
    /// Sealed notes (empty: none).
    pub encrypted_notes: Vec<u8>,
    /// Sealed TOTP secret (set separately, so none here).
    pub encrypted_totp_secret: Option<Vec<u8>>,
    /// Sealed tag list (empty: no tags).
    pub encrypted_tags: Vec<u8>,
    /// Folder id text.
    pub folder_id: Option<String>,
}

/// The stored form of an optional text that is empty when absent or empty.
pub open spec fn optional_text_stored(
    stored: Seq<u8>,
    key: Seq<u8>,
    value: Option<String>,
    entity_id: Seq<char>,
    field_name: Seq<char>,
) -> bool {
    match value {
        None => stored.len() == 0,
        Some(v) => sealed_or_cleared(stored, key, encode_utf8(v@), true, entity_id, field_name),
    }
}

/// What a new secure note stores.
#[derive(Debug)]
pub struct EncryptedNewNote {
    /// The note's id, to which every sealed field is bound.
    pub id: String,
    /// Sealed title.
    pub encrypted_title: Vec<u8>,
    /// Sealed content.
    pub encrypted_content: Vec<u8>,
    /// A random 12-byte value for the schema's nonce column.
    pub nonce: Vec<u8>,
    /// Folder id text.
    pub folder_id: Option<String>,
    /// Sealed tag list, when there are tags.
    pub encrypted_tags: Option<Vec<u8>>,
}

/// What a secure-note update writes; `None` keeps the stored value.
#[derive(Debug)]
pub struct EncryptedNoteUpdate {
    /// New sealed title.
    pub encrypted_title: Option<Vec<u8>>,
    /// New sealed content.
    pub encrypted_content: Option<Vec<u8>>,
    /// New nonce column, drawn when the content changes.
    pub nonce: Option<Vec<u8>>,
    /// New folder (`Some(None)` removes it from its folder).
    pub folder_id: Option<Option<String>>,
    /// New tags (`Some(None)` clears them).
    pub encrypted_tags: Option<Option<Vec<u8>>>,
}

/// The stored folder change of an optional folder change.
pub open spec fn folder_change_text(folder: Option<Option<uuid::Uuid>>) -> Option<Option<Seq<char>>> {
    match folder {
        Some(f) => Some(folder_text(f)),
        None => None,
    }
}

/// The vault service: builds what is stored for entries and notes, under
/// the session's data encryption key.
pub struct VaultServiceImpl<'a> {
    /// The data encryption key.
    pub dek: &'a DerivedKey,
}

impl<'a> VaultServiceImpl<'a> {
    /// A service that seals under `dek`.
    pub fn new(dek: &'a DerivedKey) -> (s: Self)
        ensures
            s.dek == dek,
    {
        VaultServiceImpl { dek }
    }

    /// Builds what an update of entry `entry_id` stores: title and username as
    /// given; the password sealed whenever given (even empty); URL and notes
    /// sealed, or cleared when empty; tags as their sealed JSON list, or cleared
    /// when the list is empty; the folder, when given, by its id text. Fails
    /// (`Crypto`) when sealing fails and (`Serialization`) when the tags cannot
    /// be written as JSON.
    pub fn encrypt_entry_update(&self, entry_id: &str, request: UpdateEntryRequest) -> (r: KestrelResult<
        EncryptedEntryUpdate,
    >)
        ensures
            r matches Ok(u) ==> {
                &&& u.title == request.title
                &&& u.username == request.username
                &&& text_update(u.encrypted_password, self.dek.key@, request.password, false, entry_id@, "password"@)
                &&& text_update(u.encrypted_url, self.dek.key@, request.url, true, entry_id@, "url"@)
                &&& text_update(u.encrypted_notes, self.dek.key@, request.notes, true, entry_id@, "notes"@)
                &&& u.encrypted_totp_secret is None
                &&& match request.tags {
                    None => u.encrypted_tags is None,
                    Some(t) => u.encrypted_tags matches Some(b) && tags_stored(b@, self.dek.key@, t@, entry_id@),
                }
                &&& match request.folder_id {
                    None => u.folder_id is None,
                    Some(f) => u.folder_id matches Some(Some(s)) && s@ == uuid_string(f),
                }
            },
            r matches Err(e) ==> e is Crypto || e is Serialization,
    {
        let encrypted_password = text_field_update(self.dek, &request.password, false, entry_id, "password")?;
        let encrypted_url = text_field_update(self.dek, &request.url, true, entry_id, "url")?;
        let encrypted_notes = text_field_update(self.dek, &request.notes, true, entry_id, "notes")?;
        let encrypted_tags = match &request.tags {
            None => None,
            Some(t) => Some(tags_field(self.dek, t, entry_id)?),
        };
        let folder_id = match &request.folder_id {
            None => None,
            Some(f) => Some(Some(uuid_to_string(f))),
        };
        Ok(
            EncryptedEntryUpdate {
                title: request.title,
                username: request.username,
                encrypted_password,
                encrypted_url,
                encrypted_notes,
                encrypted_totp_secret: None,
                encrypted_tags,
                folder_id,
            },
        )
    }

    /// Builds what a new entry with id `entry_id` stores: the password always
    /// sealed; URL and notes sealed when present and not empty, else empty;
    /// tags as their sealed JSON list when there are any, else empty; the
    /// folder by its id text. Fails (`Crypto`) when sealing fails and
    /// (`Serialization`) when the tags cannot be written as JSON.
    pub fn seal_new_entry(&self, entry_id: String, request: CreateEntryRequest) -> (r: KestrelResult<
        EncryptedNewEntry,
    >)
        ensures
            r matches Ok(e) ==> {
                &&& e.id == entry_id
                &&& e.title == request.title
                &&& e.username == request.username
                &&& sealed_or_cleared(
                    e.encrypted_password@,
                    self.dek.key@,
                    encode_utf8(request.password@),
                    false,
                    entry_id@,
                    "password"@,
                )
                &&& optional_text_stored(e.encrypted_url@, self.dek.key@, request.url, entry_id@, "url"@)
                &&& optional_text_stored(e.encrypted_notes@, self.dek.key@, request.notes, entry_id@, "notes"@)
                &&& e.encrypted_totp_secret is None
                &&& tags_stored(e.encrypted_tags@, self.dek.key@, request.tags@, entry_id@)
                &&& opt_view(e.folder_id) == folder_text(request.folder_id)
            },
            r matches Err(e) ==> e is Crypto || e is Serialization,
    {
        let id = entry_id.as_str();
        let encrypted_password = seal_or_clear(self.dek, request.password.as_str().as_bytes(), false, id, "password")?;
        let encrypted_url = match &request.url {
            Some(u) => seal_or_clear(self.dek, u.as_str().as_bytes(), true, id, "url")?,
            None => Vec::new(),
        };
        let encrypted_notes = match &request.notes {
            Some(n) => seal_or_clear(self.dek, n.as_str().as_bytes(), true, id, "notes")?,
            None => Vec::new(),
        };
        let encrypted_tags = tags_field(self.dek, &request.tags, id)?;
        let folder_id = folder_ref(&request.folder_id);
        Ok(
            EncryptedNewEntry {
                id: entry_id,
                title: request.title,
                username: request.username,
                encrypted_password,
                encrypted_url,
                encrypted_notes,
                encrypted_totp_secret: None,
                encrypted_tags,
                folder_id,
            },
        )
    }

    /// Builds a new entry under a fresh random id (see [`seal_new_entry`]).
    /// Fails (`Crypto`) also when the random generator fails.
    pub fn encrypt_new_entry(&self, request: CreateEntryRequest) -> (r: KestrelResult<EncryptedNewEntry>)
        ensures
            r matches Ok(e) ==> {
                &&& exists|u: uuid::Uuid| #[trigger] uuid_string(u) == e.id@
                &&& e.title == request.title
                &&& e.username == request.username
                &&& sealed_or_cleared(
                    e.encrypted_password@,
                    self.dek.key@,
                    encode_utf8(request.password@),
                    false,
                    e.id@,
                    "password"@,
                )
                &&& optional_text_stored(e.encrypted_url@, self.dek.key@, request.url, e.id@, "url"@)
                &&& optional_text_stored(e.encrypted_notes@, self.dek.key@, request.notes, e.id@, "notes"@)
                &&& tags_stored(e.encrypted_tags@, self.dek.key@, request.tags@, e.id@)
                &&& opt_view(e.folder_id) == folder_text(request.folder_id)
            },
            r matches Err(e) ==> e is Crypto || e is Serialization,
    {
        let u = random_uuid()?;
        let id = uuid_to_string(&u);
        self.seal_new_entry(id, request)
    }

    /// Builds what a new secure note with id `note_id` stores: title and content
    /// always sealed, a fresh random nonce column, the folder by its id text,
    /// and the tags as their sealed JSON list when there are any. Fails
    /// (`Crypto`) when sealing or the random generator fails and
    /// (`Serialization`) when the tags cannot be written as JSON.
    pub fn seal_new_note(
        &self,
        note_id: String,
        title: &str,
        content: &str,
        folder_id: Option<uuid::Uuid>,
        tags: Vec<String>,
    ) -> (r: KestrelResult<EncryptedNewNote>)
        ensures
            r matches Ok(n) ==> {
                &&& n.id == note_id
                &&& stores_sealed(n.encrypted_title@, self.dek.key@, title.spec_bytes(), note_id@, "title"@)
                &&& stores_sealed(n.encrypted_content@, self.dek.key@, content.spec_bytes(), note_id@, "content"@)
                &&& n.nonce@.len() == 12
                &&& opt_view(n.folder_id) == folder_text(folder_id)
                &&& if tags@.len() == 0 {
                    n.encrypted_tags is None
                } else {
                    n.encrypted_tags matches Some(b) && tags_stored(b@, self.dek.key@, tags@, note_id@)
                }
            },
            r matches Err(e) ==> e is Crypto || e is Serialization,
    {
        let id = note_id.as_str();
        let encrypted_title = seal_or_clear(self.dek, title.as_bytes(), false, id, "title")?;
        let encrypted_content = seal_or_clear(self.dek, content.as_bytes(), false, id, "content")?;
        let nonce = random_vec(12)?;
        let encrypted_tags = if tags.len() == 0 {
            None
        } else {
            Some(tags_field(self.dek, &tags, id)?)
        };
        let folder = folder_ref(&folder_id);
        Ok(EncryptedNewNote { id: note_id, encrypted_title, encrypted_content, nonce, folder_id: folder, encrypted_tags })
    }

    /// Builds a new secure note under a fresh random id (see
    /// [`seal_new_note`]).
    pub fn encrypt_new_note(
        &self,
        title: &str,
        content: &str,
        folder_id: Option<uuid::Uuid>,
        tags: Vec<String>,
    ) -> (r: KestrelResult<EncryptedNewNote>)
        ensures
            r matches Ok(n) ==> {
                &&& exists|u: uuid::Uuid| #[trigger] uuid_string(u) == n.id@
                &&& stores_sealed(n.encrypted_title@, self.dek.key@, title.spec_bytes(), n.id@, "title"@)
                &&& stores_sealed(n.encrypted_content@, self.dek.key@, content.spec_bytes(), n.id@, "content"@)
                &&& n.nonce@.len() == 12
                &&& opt_view(n.folder_id) == folder_text(folder_id)
                &&& if tags@.len() == 0 {
                    n.encrypted_tags is None
                } else {
                    n.encrypted_tags matches Some(b) && tags_stored(b@, self.dek.key@, tags@, n.id@)
                }
            },
            r matches Err(e) ==> e is Crypto || e is Serialization,
    {
        let u = random_uuid()?;
        let id = uuid_to_string(&u);
        self.seal_new_note(id, title, content, folder_id, tags)
    }

    /// Builds what an update of note `note_id` stores: a given title or content
    /// sealed (a new content also draws a new nonce column), the folder change
    /// by id text, and given tags as their sealed JSON list, or cleared when the
    /// list is empty. Fails (`Crypto`) when sealing or the random generator
    /// fails and (`Serialization`) when the tags cannot be written as JSON.
    pub fn encrypt_note_update(
        &self,
        note_id: &str,
        title: Option<String>,
        content: Option<String>,
        folder_id: Option<Option<uuid::Uuid>>,
        tags: Option<Vec<String>>,
    ) -> (r: KestrelResult<EncryptedNoteUpdate>)
        ensures
            r matches Ok(u) ==> {
                &&& text_update(u.encrypted_title, self.dek.key@, title, false, note_id@, "title"@)
                &&& text_update(u.encrypted_content, self.dek.key@, content, false, note_id@, "content"@)
                &&& match u.nonce {
                    Some(n) => content is Some && n@.len() == 12,
                    None => content is None,
                }
                &&& opt_opt_view(u.folder_id) == folder_change_text(folder_id)
                &&& match tags {
                    None => u.encrypted_tags is None,
                    Some(t) => if t@.len() == 0 {
                        u.encrypted_tags matches Some(None)
                    } else {
                        u.encrypted_tags matches Some(Some(b)) && tags_stored(b@, self.dek.key@, t@, note_id@)
                    },
                }
            },
            r matches Err(e) ==> e is Crypto || e is Serialization,
    {
        let encrypted_title = text_field_update(self.dek, &title, false, note_id, "title")?;
        let encrypted_content = text_field_update(self.dek, &content, false, note_id, "content")?;
        let nonce = if encrypted_content.is_some() {
            Some(random_vec(12)?)
        } else {
            None
        };
        let encrypted_tags = match &tags {
            None => None,
            Some(t) => {
                if t.len() == 0 {
                    Some(None)
                } else {
                    Some(Some(tags_field(self.dek, t, note_id)?))
                }
            },
        };
        let folder = match &folder_id {
            None => None,
            Some(f) => Some(folder_ref(f)),
        };
        Ok(EncryptedNoteUpdate { encrypted_title, encrypted_content, nonce, folder_id: folder, encrypted_tags })
    }
}

} // verus!
