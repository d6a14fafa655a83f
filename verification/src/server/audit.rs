//! Audit events: who did what to which object.
use vstd::prelude::*;
use crate::server::ids::millis_id;
use crate::server::settings::TeamMember;
use crate::engine::model::opt_view;
use crate::text::{decimal, decimal_text, join2, signed_decimal};

verus! {

/// Who caused an audit event.
pub struct AuditActor {
    pub id: String,
    pub name: String,
    pub email: String,
}

/// What an audit event is about.
pub struct AuditTarget {
    pub target_type: String,
    pub id: String,
    pub name: String,
}

/// The actor of the events the system records on its own.
pub fn system_actor() -> (a: AuditActor)
    ensures
        a.id@ == "usr_1"@ && a.name@ == "System"@ && a.email@ == "system@mermaduckle.io"@,
{
    AuditActor {
        id: "usr_1".to_owned(),
        name: "System".to_owned(),
        email: "system@mermaduckle.io".to_owned(),
    }
}

/// The actor recorded for an approved run.
pub fn approver_actor() -> (a: AuditActor)
    ensures
        a.id@ == "usr_1"@ && a.name@ == "Sarah Chen"@ && a.email@ == "sarah@mermaduckle.io"@,
{
    AuditActor {
        id: "usr_1".to_owned(),
        name: "Sarah Chen".to_owned(),
        email: "sarah@mermaduckle.io".to_owned(),
    }
}

/// The target of an audit event.
pub fn audit_target(target_type: &str, id: &str, name: &str) -> (t: AuditTarget)
    ensures
        t.target_type@ == target_type@ && t.id@ == id@ && t.name@ == name@,
{
    AuditTarget { target_type: target_type.to_owned(), id: id.to_owned(), name: name.to_owned() }
}

/// The id of an audit event recorded at `millis`.
pub fn audit_event_id(millis: i64) -> (r: String)
    ensures
        r@ == "evt_"@ + signed_decimal(millis as int),
{
    millis_id("evt_", millis)
}

// ── Seed data ─────────────────────────────────────────────

/// The team a new database starts with: id, name, email and role of each.
pub open spec fn seed_user(k: int) -> (Seq<char>, Seq<char>, Seq<char>, Seq<char>) {
    if k == 0 {
        ("usr_1"@, "Sarah Chen"@, "sarah@mermaduckle.io"@, "admin"@)
    } else if k == 1 {
        ("usr_2"@, "David Miller"@, "david@mermaduckle.io"@, "editor"@)
    } else if k == 2 {
        ("usr_3"@, "Arjunn Patel"@, "arjunn@mermaduckle.io"@, "viewer"@)
    } else {
        ("usr_4"@, "System Daemon"@, "system@mermaduckle.io"@, "system"@)
    }
}

fn seed_member(k: u64, joined_at: &str) -> (m: TeamMember)
    requires
        k < 4,
    ensures
        (m.id@, m.name@, m.email@, m.role@) == seed_user(k as int),
        m.status@ == "active"@,
        opt_view(m.joined_at) == Some(joined_at@),
{
    let (id, name, email, role) = if k == 0 {
        ("usr_1", "Sarah Chen", "sarah@mermaduckle.io", "admin")
    } else if k == 1 {
        ("usr_2", "David Miller", "david@mermaduckle.io", "editor")
    } else if k == 2 {
        ("usr_3", "Arjunn Patel", "arjunn@mermaduckle.io", "viewer")
    } else {
        ("usr_4", "System Daemon", "system@mermaduckle.io", "system")
    };
    TeamMember {
        id: id.to_owned(),
        name: name.to_owned(),
        email: email.to_owned(),
        role: role.to_owned(),
        status: "active".to_owned(),
        joined_at: Some(joined_at.to_owned()),
    }
}

/// The team a new database starts with, all active, joined at `joined_at`.
pub fn seed_team(joined_at: &str) -> (team: Vec<TeamMember>)
    ensures
        team@.len() == 4,
        forall|k: int| 0 <= k < 4 ==> {
            &&& ((#[trigger] team@[k]).id@, team@[k].name@, team@[k].email@, team@[k].role@) == seed_user(k)
            &&& team@[k].status@ == "active"@
            &&& opt_view(team@[k].joined_at) == Some(joined_at@)
        },
{
    let mut team: Vec<TeamMember> = Vec::new();
    let mut k: u64 = 0;
    while k < 4
        invariant
            0 <= k <= 4,
            team@.len() == k,
            forall|j: int| 0 <= j < k ==> {
                &&& ((#[trigger] team@[j]).id@, team@[j].name@, team@[j].email@, team@[j].role@) == seed_user(j)
                &&& team@[j].status@ == "active"@
                &&& opt_view(team@[j].joined_at) == Some(joined_at@)
            },
        decreases 4 - k,
    {
        team.push(seed_member(k, joined_at));
        k = k + 1;
    }
    team
}

/// One of the audit events a new database starts with.
pub struct SeedAuditEvent {
    pub id: String,
    pub event_type: String,
    pub severity: String,
    pub actor: AuditActor,
    pub target: AuditTarget,
    pub metadata: String,
    pub hours_ago: u64,
}

/// The severity of seed event `i`: every fifteenth is high, every other
/// fifth medium, the rest low.
pub open spec fn seed_severity(i: u64) -> Seq<char> {
    if i % 15 == 0 { "high"@ } else if i % 5 == 0 { "medium"@ } else { "low"@ }
}

/// The type of seed event `i`, cycling through six.
pub open spec fn seed_event_type(i: u64) -> Seq<char> {
    let k = i % 6;
    if k == 0 { "workflow_run_started"@ }
    else if k == 1 { "workflow_run_completed"@ }
    else if k == 2 { "agent_updated"@ }
    else if k == 3 { "policy_violation"@ }
    else if k == 4 { "workflow_published"@ }
    else { "settings_changed"@ }
}

/// The metadata of a failed seed event.
pub const SEED_FAILURE_METADATA: &'static str = "{\"error\":\"HTTP 429 Too Many Requests - Rate Limit Exceeded\",\"action\":\"aborted\"}";

/// The metadata of a successful seed event.
pub const SEED_SUCCESS_METADATA: &'static str = "{\"status\":\"success\",\"duration_ms\":1450}";

/// Seed event `i`: made by team member `i % 4`, about workflow
/// `wf_{i % 10 + 1}`, `3 i` hours ago.
pub fn seed_audit_event(i: u64) -> (e: SeedAuditEvent)
    requires
        i <= u64::MAX / 3,
    ensures
        e.id@ == "evt_"@ + decimal(i as nat),
        e.event_type@ == seed_event_type(i),
        e.severity@ == seed_severity(i),
        (e.actor.id@, e.actor.name@, e.actor.email@, seed_user((i % 4) as int).3) == seed_user((i % 4) as int),
        e.target.target_type@ == "system"@,
        e.target.id@ == "wf_"@ + decimal((i % 10 + 1) as nat),
        e.target.name@ == "Workflow wf_"@ + decimal((i % 10 + 1) as nat),
        e.metadata@ == if i % 15 == 0 { SEED_FAILURE_METADATA@ } else { SEED_SUCCESS_METADATA@ },
        e.hours_ago == i * 3,
{
    let member = seed_member(i % 4, "");
    let w = decimal_text(i % 10 + 1);
    let severity = if i % 15 == 0 { "high" } else if i % 5 == 0 { "medium" } else { "low" };
    let k = i % 6;
    let event_type = if k == 0 {
        "workflow_run_started"
    } else if k == 1 {
        "workflow_run_completed"
    } else if k == 2 {
        "agent_updated"
    } else if k == 3 {
        "policy_violation"
    } else if k == 4 {
        "workflow_published"
    } else {
        "settings_changed"
    };
    SeedAuditEvent {
        id: join2("evt_", decimal_text(i).as_str()),
        event_type: event_type.to_owned(),
        severity: severity.to_owned(),
        actor: AuditActor { id: member.id, name: member.name, email: member.email },
        target: AuditTarget {
            target_type: "system".to_owned(),
            id: join2("wf_", w.as_str()),
            name: join2("Workflow wf_", w.as_str()),
        },
        metadata: if i % 15 == 0 { SEED_FAILURE_METADATA.to_owned() } else { SEED_SUCCESS_METADATA.to_owned() },
        hours_ago: i * 3,
    }
}

} // verus!
