//! Offline security analysis: password strength, breach lookups and the
//! vault security score.
//!
//! - `breach_check`: hash-based lookup against a local breach list
//! - `password_strength`: pattern detection and character-class analysis
//! - `score`: the weighted vault security score
//! - `findings`: how a finding is reported

pub mod breach_check;
pub mod findings;
pub mod password_strength;
pub mod score;

use vstd::prelude::*;
use vstd::string::*;

verus! {

/// Overall threat level of a finding, from none to critical.
#[derive(Clone, Copy, Debug, PartialEq, Eq, Structural, PartialOrd, Ord, Hash)]
pub enum ThreatLevel {
    /// No concern (displayed as "none").
    NoThreat,
    /// Minor concern.
    Low,
    /// Moderate concern.
    Medium,
    /// Significant concern.
    High,
    /// Critical concern.
    Critical,
}

/// Display text of a threat level.
pub open spec fn threat_text(t: ThreatLevel) -> Seq<char> {
    match t {
        ThreatLevel::NoThreat => "none"@,
        ThreatLevel::Low => "low"@,
        ThreatLevel::Medium => "medium"@,
        ThreatLevel::High => "high"@,
        ThreatLevel::Critical => "critical"@,
    }
}

/// Rank of a threat level, from 0 (none) to 4 (critical).
pub open spec fn threat_rank(t: ThreatLevel) -> int {
    match t {
        ThreatLevel::NoThreat => 0,
        ThreatLevel::Low => 1,
        ThreatLevel::Medium => 2,
        ThreatLevel::High => 3,
        ThreatLevel::Critical => 4,
    }
}

impl ThreatLevel {
    /// The lower-case display text ("none", "low", "medium", "high", "critical").
    pub fn to_string(&self) -> (s: String)
        ensures
            s@ == threat_text(*self),
    {
        match self {
            ThreatLevel::NoThreat => String::from_str("none"),
            ThreatLevel::Low => String::from_str("low"),
            ThreatLevel::Medium => String::from_str("medium"),
            ThreatLevel::High => String::from_str("high"),
            ThreatLevel::Critical => String::from_str("critical"),
        }
    }
}

/// A JSON value (`serde_json::Value`).
#[verifier::external_type_specification]
#[verifier::external_body]
pub struct ExJsonValue(serde_json::Value);

/// The JSON `null` value (`serde_json::Value::Null`).
///
/// Nothing is stated of the value: the library only stores it.
#[verifier::external_body]
fn json_null() -> serde_json::Value {
    serde_json::Value::Null
}

/// A finding of a security scan.
#[derive(Debug)]
pub struct ScanResult {
    /// The threat level of the finding.
    pub threat_level: ThreatLevel,
    /// What was found.
    pub description: String,
    /// What to do about it.
    pub recommendation: String,
    /// Additional details (JSON).
    pub details: serde_json::Value,
}

impl ScanResult {
    /// A finding with no details.
    pub fn new(threat_level: ThreatLevel, description: String, recommendation: String) -> (r: Self)
        ensures
            r.threat_level == threat_level,
            r.description == description,
            r.recommendation == recommendation,
    {
        ScanResult { threat_level, description, recommendation, details: json_null() }
    }

    /// The result of a scan that found nothing.
    pub fn ok() -> (r: Self)
        ensures
            r.threat_level == ThreatLevel::NoThreat,
            r.description@ == "No issues found"@,
            r.recommendation@.len() == 0,
    {
        ScanResult {
            threat_level: ThreatLevel::NoThreat,
            description: String::from_str("No issues found"),
            recommendation: String::new(),
            details: json_null(),
        }
    }
}

} // verus!
