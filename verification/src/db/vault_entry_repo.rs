//! The vault-entry repository's query helpers.

use vstd::prelude::*;
use vstd::string::*;

verus! {

/// The vault-entry repository.
pub struct VaultEntryRepo;

impl VaultEntryRepo {
    /// The LIKE pattern that matches titles or usernames containing the
    /// query: the query between two `%` wildcards.
    pub fn search_pattern(query: &str) -> (p: String)
        ensures
            p@ == "%"@ + query@ + "%"@,
    {
        let mut p = String::from_str("%");
        p.append(query);
        p.append("%");
        p
    }
}

} // verus!
