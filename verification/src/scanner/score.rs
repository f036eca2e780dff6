//! The vault security score: four category scores and their average.
//!
//! | Category         | Base | Adjustments                                       |
//! |------------------|------|---------------------------------------------------|
//! | password_health  | 70   | -5 per vulnerability (min 0); 100 for an empty vault |
//! | breach_status    | 80   | -20 if any breach was detected                    |
//! | vault_hygiene    | 75   | +5 if folders are used, +5 if notes are present   |
//! | audit_compliance | 85   | -10 if no audit events exist                      |

use vstd::prelude::*;
use vstd::string::*;

verus! {

/// What the score is computed from.
#[derive(Clone, Copy, Debug, PartialEq, Eq, Structural)]
pub struct ScoreInputs {
    /// Number of vault entries.
    pub entry_count: u64,
    /// Number of folders.
    pub folder_count: u64,
    /// Number of entries that carry notes.
    pub entries_with_notes: u64,
    /// Number of findings of the vulnerability scan.
    pub vulnerability_count: u64,
    /// Number of entries found in breach data.
    pub breached_count: u64,
    /// Number of audit events on record.
    pub audit_event_count: u64,
}

/// The four category scores, each between 0 and 100.
#[derive(Clone, Copy, Debug, PartialEq, Eq, Structural)]
pub struct SecurityBreakdown {
    /// Password health.
    pub password_health: u8,
    /// Breach exposure.
    pub breach_status: u8,
    /// Organisation of the vault.
    pub vault_hygiene: u8,
    /// Audit trail.
    pub audit_compliance: u8,
}

/// The overall score with its label and breakdown.
#[derive(Clone, Debug)]
pub struct SecurityScore {
    /// Average of the four category scores (0 to 100).
    pub score: u8,
    /// "Critical", "Poor", "Fair", "Good" or "Excellent".
    pub label: String,
    /// The category scores.
    pub breakdown: SecurityBreakdown,
}

/// Password health: 100 for an empty vault, otherwise 70 less 5 per
/// vulnerability, never below 0.
pub open spec fn password_health_of(i: ScoreInputs) -> int {
    if i.entry_count == 0 {
        100
    } else if 70 - 5 * i.vulnerability_count < 0 {
        0
    } else {
        70 - 5 * i.vulnerability_count
    }
}

/// Breach status: 80, or 60 once any breach was detected.
pub open spec fn breach_status_of(i: ScoreInputs) -> int {
    if i.breached_count > 0 {
        60
    } else {
        80
    }
}

/// Vault hygiene: 75, plus 5 when folders are used and 5 when notes are present.
pub open spec fn vault_hygiene_of(i: ScoreInputs) -> int {
    75 + (if i.folder_count > 0 {
        5int
    } else {
        0int
    }) + (if i.entries_with_notes > 0 {
        5int
    } else {
        0int
    })
}

/// Audit compliance: 85, or 75 when no audit events exist.
pub open spec fn audit_compliance_of(i: ScoreInputs) -> int {
    if i.audit_event_count == 0 {
        75
    } else {
        85
    }
}

/// The overall score: the average of the four category scores, rounded down.
pub open spec fn overall_score(i: ScoreInputs) -> int {
    (password_health_of(i) + breach_status_of(i) + vault_hygiene_of(i) + audit_compliance_of(i)) / 4
}

/// The band a score falls in: 0 for 0-25, 1 for 26-50, 2 for 51-70, 3 for
/// 71-85 and 4 above.
pub open spec fn score_band(score: int) -> int {
    if score <= 25 {
        0
    } else if score <= 50 {
        1
    } else if score <= 70 {
        2
    } else if score <= 85 {
        3
    } else {
        4
    }
}

/// The label of each band.
pub open spec fn band_label(band: int) -> Seq<char> {
    if band == 0 {
        "Critical"@
    } else if band == 1 {
        "Poor"@
    } else if band == 2 {
        "Fair"@
    } else if band == 3 {
        "Good"@
    } else {
        "Excellent"@
    }
}

/// The label of a score between 0 and 100.
pub open spec fn score_label(score: int) -> Seq<char> {
    band_label(score_band(score))
}

/// The label for a score: 0-25 "Critical", 26-50 "Poor", 51-70 "Fair",
/// 71-85 "Good", 86-100 "Excellent".
pub fn label_for_score(score: u8) -> (s: String)
    requires
        score <= 100,
    ensures
        s@ == score_label(score as int),
{
    if score <= 25 {
        String::from_str("Critical")
    } else if score <= 50 {
        String::from_str("Poor")
    } else if score <= 70 {
        String::from_str("Fair")
    } else if score <= 85 {
        String::from_str("Good")
    } else {
        String::from_str("Excellent")
    }
}

/// Computes the security score of a vault from its counts.
pub fn compute_security_score(inputs: &ScoreInputs) -> (r: SecurityScore)
    ensures
        r.breakdown.password_health == password_health_of(*inputs),
        r.breakdown.breach_status == breach_status_of(*inputs),
        r.breakdown.vault_hygiene == vault_hygiene_of(*inputs),
        r.breakdown.audit_compliance == audit_compliance_of(*inputs),
        r.score == overall_score(*inputs),
        0 <= r.score <= 100,
        r.label@ == score_label(r.score as int),
{
    let password_health: u8 = if inputs.entry_count == 0 {
        100
    } else if inputs.vulnerability_count >= 14 {
        0
    } else {
        70 - 5 * (inputs.vulnerability_count as u8)
    };
    let breach_status: u8 = if inputs.breached_count > 0 {
        60
    } else {
        80
    };
    let folder_bonus: u8 = if inputs.folder_count > 0 {
        5
    } else {
        0
    };
    let notes_bonus: u8 = if inputs.entries_with_notes > 0 {
        5
    } else {
        0
    };
    let vault_hygiene: u8 = 75 + folder_bonus + notes_bonus;
    let audit_compliance: u8 = if inputs.audit_event_count == 0 {
        75
    } else {
        85
    };
    let total: u32 = password_health as u32 + breach_status as u32 + vault_hygiene as u32
        + audit_compliance as u32;
    let score: u8 = (total / 4) as u8;
    let label = label_for_score(score);
    SecurityScore {
        score,
        label,
        breakdown: SecurityBreakdown { password_health, breach_status, vault_hygiene, audit_compliance },
    }
}


/// Every category score and the overall score lie between 0 and 100, and
/// the label follows the score's band.
pub proof fn law_scores_in_range(i: ScoreInputs)
    ensures
        0 <= password_health_of(i) <= 100,
        0 <= breach_status_of(i) <= 100,
        0 <= vault_hygiene_of(i) <= 100,
        0 <= audit_compliance_of(i) <= 100,
        0 <= overall_score(i) <= 100,
{
}

/// More vulnerabilities or breaches never raise the score; using folders
/// or notes, and having audit events, never lower it.
pub proof fn law_score_monotone(a: ScoreInputs, b: ScoreInputs)
    requires
        a.entry_count == b.entry_count,
        a.vulnerability_count <= b.vulnerability_count,
        a.breached_count > 0 ==> b.breached_count > 0,
        b.folder_count > 0 ==> a.folder_count > 0,
        b.entries_with_notes > 0 ==> a.entries_with_notes > 0,
        b.audit_event_count > 0 ==> a.audit_event_count > 0,
    ensures
        overall_score(b) <= overall_score(a),
        password_health_of(b) <= password_health_of(a),
{
    let sa = password_health_of(a) + breach_status_of(a) + vault_hygiene_of(a) + audit_compliance_of(a);
    let sb = password_health_of(b) + breach_status_of(b) + vault_hygiene_of(b) + audit_compliance_of(b);
    assert(sb <= sa);
    assert(sb / 4 <= sa / 4) by (nonlinear_arith)
        requires
            sb <= sa,
    ;
}

/// A higher score never falls in a lower band.
pub proof fn law_bands_ordered(x: int, y: int)
    requires
        x <= y,
    ensures
        score_band(x) <= score_band(y),
{
}


/// In a vault with entries, password health starts at 70 with no
/// vulnerability and each vulnerability costs exactly 5 points, down to 0
/// and never below: health is max(0, 70 - 5 * vulnerabilities) (so 4
/// vulnerabilities give 50 and 13 give 5, 14 or more give 0).
pub proof fn law_each_vulnerability_costs_five(i: ScoreInputs, j: ScoreInputs)
    requires
        i.entry_count > 0,
        j.entry_count > 0,
        j.vulnerability_count == i.vulnerability_count + 1,
    ensures
        i.vulnerability_count == 0 ==> password_health_of(i) == 70,
        password_health_of(i) >= 5 ==> password_health_of(j) == password_health_of(i) - 5,
        password_health_of(i) < 5 ==> password_health_of(j) == 0,
        5 * i.vulnerability_count <= 70 ==> password_health_of(i) == 70 - 5 * i.vulnerability_count,
        5 * i.vulnerability_count > 70 ==> password_health_of(i) == 0,
        password_health_of(i) >= 0,
{
}


/// The category table: an empty vault has full password health; breach
/// status is 80, 20 less once any breach is found; hygiene is 75 with 5 more
/// for using folders and 5 more for notes; audit compliance is 85, 10 less
/// without audit events; the overall score is the four averaged, rounded
/// down, and its label is "Critical" up to 25, "Poor" up to 50, "Fair" up
/// to 70, "Good" up to 85 and "Excellent" above.
pub proof fn law_category_table(i: ScoreInputs)
    ensures
        i.entry_count == 0 ==> password_health_of(i) == 100,
        i.breached_count == 0 ==> breach_status_of(i) == 80,
        i.breached_count > 0 ==> breach_status_of(i) == 80 - 20,
        vault_hygiene_of(i) == 75 + (if i.folder_count > 0 { 5int } else { 0 }) + (if i.entries_with_notes > 0 {
            5int
        } else {
            0
        }),
        i.audit_event_count > 0 ==> audit_compliance_of(i) == 85,
        i.audit_event_count == 0 ==> audit_compliance_of(i) == 85 - 10,
        4 * overall_score(i) <= password_health_of(i) + breach_status_of(i) + vault_hygiene_of(i)
            + audit_compliance_of(i) < 4 * overall_score(i) + 4,
        overall_score(i) <= 25 ==> score_label(overall_score(i)) == "Critical"@,
        25 < overall_score(i) <= 50 ==> score_label(overall_score(i)) == "Poor"@,
        50 < overall_score(i) <= 70 ==> score_label(overall_score(i)) == "Fair"@,
        70 < overall_score(i) <= 85 ==> score_label(overall_score(i)) == "Good"@,
        85 < overall_score(i) ==> score_label(overall_score(i)) == "Excellent"@,
{
}

} // verus!
