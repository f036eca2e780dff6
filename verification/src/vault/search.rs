//! Search queries over non-sensitive entry metadata.

use vstd::prelude::*;
use vstd::string::*;
use crate::error::KestrelError;
use crate::text::{is_blank, is_blank_spec};
use crate::vault::entry::VaultEntry;
use uuid::Uuid;
use vstd::utf8::encode_utf8;

verus! {

/// A search over titles and other non-sensitive metadata.
#[derive(Debug)]
pub struct SearchQuery {
    /// The term to match.
    pub term: String,
    /// Restrict to one folder.
    pub folder_id: Option<Uuid>,
    /// Restrict to one tag.
    pub tag: Option<String>,
    /// Maximum number of results.
    pub limit: Option<i64>,
}

/// Why a search term is refused, if it is.
pub open spec fn term_failure(term: Seq<char>, byte_len: nat) -> Option<Seq<char>> {
    if is_blank_spec(term) {
        Some("Search term must not be empty"@)
    } else if byte_len > 256 {
        Some("Search term too long (max 256 characters)"@)
    } else {
        None
    }
}

impl SearchQuery {
    /// A query for `term` without filters or limit.
    pub fn new(term: String) -> (q: Self)
        ensures
            q.term == term,
            q.folder_id is None,
            q.tag is None,
            q.limit is None,
    {
        SearchQuery { term, folder_id: None, tag: None, limit: None }
    }

    /// Refuses a blank term and a term longer than 256 bytes.
    pub fn validate(&self) -> (r: Result<(), KestrelError>)
        ensures
            match term_failure(self.term@, encode_utf8(self.term@).len()) {
                Some(m) => r matches Err(e) && e is Validation && e.message() == m,
                None => r is Ok,
            },
    {
        if is_blank(self.term.as_str()) {
            return Err(KestrelError::Validation(String::from_str("Search term must not be empty")));
        }
        if self.term.as_str().as_bytes().len() > 256 {
            return Err(KestrelError::Validation(String::from_str("Search term too long (max 256 characters)")));
        }
        Ok(())
    }
}

/// Records the searchable metadata of an entry (title, URL, tags; never
/// the password or notes). No index is kept yet: every entry is accepted
/// and nothing changes.
pub fn build_search_index(entry: &VaultEntry) -> (r: Result<(), KestrelError>)
    ensures
        r is Ok,
{
    Ok(())
}

} // verus!
