//! Folders for organising entries into a hierarchy.

use vstd::prelude::*;
use vstd::string::*;
use crate::crypto::random::random_uuid;
use crate::error::KestrelError;
use crate::time::{now, Timestamp};
use uuid::Uuid;

verus! {

/// A folder.
#[derive(Debug)]
pub struct Folder {
    /// Folder identifier.
    pub id: Uuid,
    /// Display name.
    pub name: String,
    /// Parent folder; `None` for a root folder.
    pub parent_id: Option<Uuid>,
    /// Creation time.
    pub created_at: Timestamp,
    /// Last modification time.
    pub updated_at: Timestamp,
}

impl Folder {
    /// A new root folder with a fresh random identifier, created now.
    /// Fails only when the system's random generator fails.
    pub fn new(name: String) -> (r: Result<Self, KestrelError>)
        ensures
            r matches Ok(f) ==> f.name == name && f.parent_id is None && f.created_at == f.updated_at,
            r matches Err(e) ==> e is Crypto,
    {
        let id = random_uuid()?;
        let t = now();
        Ok(Folder { id, name, parent_id: None, created_at: t, updated_at: t })
    }

    /// A new folder inside `parent_id`, with a fresh random identifier,
    /// created now. Fails only when the system's random generator fails.
    pub fn new_child(name: String, parent_id: Uuid) -> (r: Result<Self, KestrelError>)
        ensures
            r matches Ok(f) ==> f.name == name && f.parent_id == Some(parent_id) && f.created_at
                == f.updated_at,
            r matches Err(e) ==> e is Crypto,
    {
        let id = random_uuid()?;
        let t = now();
        Ok(Folder { id, name, parent_id: Some(parent_id), created_at: t, updated_at: t })
    }

    /// Whether the folder sits at the top of the hierarchy.
    pub fn is_root(&self) -> (r: bool)
        ensures
            r == (self.parent_id is None),
    {
        self.parent_id.is_none()
    }
}

/// A folder and its sub-folders.
#[derive(Debug)]
pub struct FolderNode {
    /// The folder at this level.
    pub folder: Folder,
    /// Its sub-folders.
    pub children: Vec<FolderNode>,
}

/// Builds the folder hierarchy from a flat list of folders. The hierarchy
/// is not assembled yet: the result is always an empty list of roots.
pub fn build_folder_tree(folders: &[Folder]) -> (r: Result<Vec<FolderNode>, KestrelError>)
    ensures
        r matches Ok(v) && v@.len() == 0,
{
    Ok(Vec::new())
}

/// Moves a folder under a new parent (or to the top). Moving is not
/// supported yet: every request is refused with a vault error.
pub fn move_folder(folder_id: Uuid, new_parent_id: Option<Uuid>) -> (r: Result<(), KestrelError>)
    ensures
        r matches Err(e) && e is Vault && e.message() == "Folder move not yet implemented"@,
{
    Err(KestrelError::Vault(String::from_str("Folder move not yet implemented")))
}

} // verus!
