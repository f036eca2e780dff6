//! How a scan finding is reported to the user: one line naming how many
//! entries it affects and which, and the affected entry when there is just
//! one.

use vstd::prelude::*;
use vstd::string::*;
use crate::scanner::breach_check::BreachCheckResult;
use crate::scanner::{threat_text, ThreatLevel};
use crate::text::{decimal, push_decimal};
use crate::time::{utc_representable, Timestamp};

verus! {

/// The views of a list of strings.
pub open spec fn views(items: Seq<String>) -> Seq<Seq<char>> {
    items.map_values(|s: String| s@)
}

/// The items joined with `sep` between each two neighbours.
pub open spec fn joined(items: Seq<Seq<char>>, sep: Seq<char>) -> Seq<char>
    decreases items.len(),
{
    if items.len() == 0 {
        Seq::empty()
    } else if items.len() == 1 {
        items[0]
    } else {
        joined(items.drop_last(), sep) + sep + items.last()
    }
}

/// The reported text of a finding: its description, then in brackets the
/// number of affected entries and their ids, separated by ", ".
pub open spec fn finding_text(description: Seq<char>, ids: Seq<Seq<char>>) -> Seq<char> {
    description + " (affects "@ + decimal(ids.len()) + " entries: "@ + joined(ids, ", "@) + ")"@
}

/// The reported text of a finding with the given affected entry ids.
pub fn describe_finding(description: &str, affected_ids: &[String]) -> (s: String)
    ensures
        s@ == finding_text(description@, views(affected_ids@)),
{
    let mut s = String::from_str(description);
    s.append(" (affects ");
    push_decimal(&mut s, affected_ids.len() as u64);
    s.append(" entries: ");
    let ghost start = s@;
    let mut i: usize = 0;
    while i < affected_ids.len()
        invariant
            i <= affected_ids.len(),
            s@ == start + joined(views(affected_ids@).take(i as int), ", "@),
        decreases affected_ids.len() - i,
    {
        if i > 0 {
            s.append(", ");
        }
        s.append(affected_ids[i].as_str());
        proof {
            let v = views(affected_ids@);
            assert(v.take(i + 1).drop_last() =~= v.take(i as int));
            if i == 0 {
                assert(joined(v.take(0), ", "@) =~= Seq::<char>::empty());
            }
        }
        i = i + 1;
    }
    s.append(")");
    proof {
        assert(views(affected_ids@).take(affected_ids.len() as int) =~= views(affected_ids@));
    }
    s
}

/// The entry a finding is about, when it affects exactly one.
pub fn single_affected_entry(affected_ids: &[String]) -> (r: Option<String>)
    ensures
        affected_ids@.len() == 1 ==> r == Some(affected_ids@[0]),
        affected_ids@.len() != 1 ==> r is None,
{
    if affected_ids.len() == 1 {
        Some(affected_ids[0].clone())
    } else {
        None
    }
}

/// A vulnerability as reported to the user.
#[derive(Clone, Debug)]
pub struct VulnerabilityItemResponse {
    /// Identifier of this report.
    pub id: String,
    /// Threat level as display text.
    pub threat_level: String,
    /// What was found.
    pub description: String,
    /// What to do about it.
    pub recommendation: String,
    /// The affected entry, when the report is about exactly one.
    pub entry_id: Option<String>,
}

/// The report of a scan finding under the identifier `id`: its threat
/// level as text, the finding's text naming the affected entries, the
/// recommendation, and the affected entry when there is exactly one.
pub fn finding_response(
    id: String,
    threat_level: ThreatLevel,
    description: &str,
    recommendation: &str,
    affected_ids: &[String],
) -> (r: VulnerabilityItemResponse)
    ensures
        r.id == id,
        r.threat_level@ == threat_text(threat_level),
        r.description@ == finding_text(description@, views(affected_ids@)),
        r.recommendation@ == recommendation@,
        affected_ids@.len() == 1 ==> r.entry_id == Some(affected_ids@[0]),
        affected_ids@.len() != 1 ==> r.entry_id is None,
{
    VulnerabilityItemResponse {
        id,
        threat_level: threat_level.to_string(),
        description: describe_finding(description, affected_ids),
        recommendation: String::from_str(recommendation),
        entry_id: single_affected_entry(affected_ids),
    }
}

/// What the user is told to do about a breached password.
pub open spec fn breach_advice() -> Seq<char> {
    "Change this password immediately \u{2014} it has appeared in known data breaches"@
}

/// The report of a breach lookup under the identifier `id`: none when the
/// password was not found; otherwise its threat level, the lookup's message
/// and the advice to change the password, about no particular entry.
pub fn breach_response(id: String, result: BreachCheckResult) -> (r: Option<VulnerabilityItemResponse>)
    ensures
        r is Some <==> result.is_breached,
        r matches Some(v) ==> {
            &&& v.id == id
            &&& v.threat_level@ == threat_text(result.threat_level)
            &&& v.description == result.message
            &&& v.recommendation@ == breach_advice()
            &&& v.entry_id is None
        },
{
    if result.is_breached {
        Some(
            VulnerabilityItemResponse {
                id,
                threat_level: result.threat_level.to_string(),
                description: result.message,
                recommendation: String::from_str(
                    "Change this password immediately \u{2014} it has appeared in known data breaches",
                ),
                entry_id: None,
            },
        )
    } else {
        None
    }
}

/// Nanoseconds in a day.
pub open spec fn nanos_per_day() -> int {
    86_400_000_000_000
}

/// The instant as nanoseconds since the epoch.
pub open spec fn total_nanos(t: Timestamp) -> int {
    t.secs * 1_000_000_000 + t.nanos
}

/// Whole days from `then` to `now`, and 0 when `now` is not later.
pub open spec fn whole_days_between(now: Timestamp, then: Timestamp) -> int {
    let d = total_nanos(now) - total_nanos(then);
    if d <= 0 {
        0
    } else {
        d / nanos_per_day()
    }
}

/// How old a password is: the whole days since it was last updated, and 0
/// when the update lies in the future.
pub fn password_age_days(now: Timestamp, updated_at: Timestamp) -> (days: u32)
    requires
        utc_representable(now.secs, now.nanos),
        utc_representable(updated_at.secs, updated_at.nanos),
        now.nanos < 1_000_000_000,
        updated_at.nanos < 1_000_000_000,
    ensures
        days == whole_days_between(now, updated_at),
{
    let d: i128 = (now.secs as i128 - updated_at.secs as i128) * 1_000_000_000i128 + now.nanos as i128
        - updated_at.nanos as i128;
    if d <= 0 {
        0
    } else {
        let days: i128 = d / 86_400_000_000_000i128;
        assert(days <= 200_000_000) by (nonlinear_arith)
            requires
                days == d / 86_400_000_000_000i128,
                0 < d <= 17_000_000_000_000_000_000_000,
        ;
        days as u32
    }
}

} // verus!
