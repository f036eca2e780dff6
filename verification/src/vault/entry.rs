//! Vault entries and the requests that create and update them.
//!
//! Passwords and notes are kept only as ciphertext.

use vstd::prelude::*;
use crate::crypto::random::random_uuid;
use crate::error::KestrelError;
use crate::time::{now, Timestamp};
use uuid::Uuid;

verus! {

/// A stored credential.
#[derive(Debug)]
pub struct VaultEntry {
    /// Entry identifier.
    pub id: Uuid,
    /// Display title.
    pub title: String,
    /// Username or e-mail.
    pub username: String,
    /// Encrypted password.
    pub encrypted_password: Vec<u8>,
    /// Nonce of the password encryption.
    pub password_nonce: Vec<u8>,
    /// Associated URL.
    pub url: Option<String>,
    /// Encrypted notes.
    pub encrypted_notes: Vec<u8>,
    /// Nonce of the notes encryption.
    pub notes_nonce: Vec<u8>,
    /// Folder holding the entry.
    pub folder_id: Option<Uuid>,
    /// Creation time.
    pub created_at: Timestamp,
    /// Last modification time.
    pub updated_at: Timestamp,
    /// Tags.
    pub tags: Vec<String>,
}

impl VaultEntry {
    /// A new entry with a fresh random identifier, created now, outside any
    /// folder, without URL, notes or tags. Fails only when the system's
    /// random generator fails.
    pub fn new(title: String, username: String, encrypted_password: Vec<u8>, password_nonce: Vec<u8>) -> (r:
        Result<Self, KestrelError>)
        ensures
            r matches Ok(e) ==> {
                &&& e.title == title
                &&& e.username == username
                &&& e.encrypted_password == encrypted_password
                &&& e.password_nonce == password_nonce
                &&& e.url is None
                &&& e.encrypted_notes@.len() == 0
                &&& e.notes_nonce@.len() == 0
                &&& e.folder_id is None
                &&& e.created_at == e.updated_at
                &&& e.tags@.len() == 0
            },
            r matches Err(e) ==> e is Crypto,
    {
        let id = random_uuid()?;
        let t = now();
        Ok(
            VaultEntry {
                id,
                title,
                username,
                encrypted_password,
                password_nonce,
                url: None,
                encrypted_notes: Vec::new(),
                notes_nonce: Vec::new(),
                folder_id: None,
                created_at: t,
                updated_at: t,
                tags: Vec::new(),
            },
        )
    }
}

/// A request to create an entry (the password in plain text, encrypted
/// before storage).
#[derive(Debug)]
pub struct CreateEntryRequest {
    /// Display title.
    pub title: String,
    /// Username or e-mail.
    pub username: String,
    /// Plain-text password.
    pub password: String,
    /// Associated URL.
    pub url: Option<String>,
    /// Plain-text notes.
    pub notes: Option<String>,
    /// Folder to place the entry in.
    pub folder_id: Option<Uuid>,
    /// Tags.
    pub tags: Vec<String>,
}

/// A partial update: only the fields present change.
#[derive(Debug)]
pub struct UpdateEntryRequest {
    /// New title.
    pub title: Option<String>,
    /// New username.
    pub username: Option<String>,
    /// New plain-text password.
    pub password: Option<String>,
    /// New URL (empty clears it).
    pub url: Option<String>,
    /// New notes (empty clears them).
    pub notes: Option<String>,
    /// New folder.
    pub folder_id: Option<Uuid>,
    /// New tags (empty clears them).
    pub tags: Option<Vec<String>>,
}

} // verus!
