//! The audit logger handle.

use vstd::prelude::*;

verus! {

/// Handle to the audit log. Not yet connected to storage.
pub struct AuditLog {
    _pool: Option<()>,
}

impl AuditLog {
    /// A logger without storage attached.
    pub fn new() -> (l: Self)
        ensures
            l.is_detached(),
    {
        AuditLog { _pool: None }
    }

    /// Whether no storage is attached.
    pub closed spec fn is_detached(&self) -> bool {
        self._pool is None
    }
}

impl Default for AuditLog {
    fn default() -> (l: Self)
        ensures
            l.is_detached(),
    {
        Self::new()
    }
}

} // verus!
