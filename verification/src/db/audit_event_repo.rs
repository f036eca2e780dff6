//! Rows of the append-only audit log.

use vstd::prelude::*;

verus! {

/// An audit event as stored.
#[derive(Debug, Clone)]
pub struct AuditEventRow {
    /// Event identifier.
    pub id: String,
    /// Event category.
    pub category: String,
    /// Action performed.
    pub action: String,
    /// What the action was about.
    pub subject: String,
    /// Extra details as JSON, if any.
    pub metadata_json: Option<String>,
    /// When the event happened (RFC 3339).
    pub timestamp: String,
}

/// A new audit event to record.
#[derive(Debug, Clone)]
pub struct CreateAuditEventRequest {
    /// Event category.
    pub category: String,
    /// Action performed.
    pub action: String,
    /// What the action was about.
    pub subject: String,
    /// Extra details as JSON, if any.
    pub metadata_json: Option<String>,
}

/// The audit-event repository (append-only: no update or delete).
pub struct AuditEventRepo;

impl AuditEventRepo {
    /// The stored row for a new event with the given identifier and time:
    /// the request's fields, unchanged.
    pub fn row_for(request: CreateAuditEventRequest, id: String, timestamp: String) -> (r: AuditEventRow)
        ensures
            r.id == id,
            r.category == request.category,
            r.action == request.action,
            r.subject == request.subject,
            r.metadata_json == request.metadata_json,
            r.timestamp == timestamp,
    {
        AuditEventRow {
            id,
            category: request.category,
            action: request.action,
            subject: request.subject,
            metadata_json: request.metadata_json,
            timestamp,
        }
    }
}

} // verus!
