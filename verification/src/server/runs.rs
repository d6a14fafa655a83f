//! Workflow runs: what their records get, and how workflows are updated.
use vstd::prelude::*;
use crate::engine::model::{first_target, next_target, opt_view, WorkflowEdge};
use crate::text::{decimal, decimal_text, join2, join3, join_texts, join_with, same_text, views};

verus! {

/// A request to approve or reject a run that waits for approval.
pub struct ApprovalActionRequest {
    pub action: String,
}

/// What a run's record gets when its execution ends.
pub struct RunRecordUpdate {
    pub completed_at: Option<String>,
    pub error: Option<String>,
}

/// The record of a run started by hand: it is complete when it completed or
/// failed; a failed run keeps its output as the error.
pub fn run_record_update(status: &str, output: &str, completed_at: &str) -> (r: RunRecordUpdate)
    ensures
        opt_view(r.completed_at) == if status@ == "completed"@ || status@ == "failed"@ {
            Some(completed_at@)
        } else {
            None
        },
        opt_view(r.error) == if status@ == "failed"@ { Some(output@) } else { None },
{
    let failed = same_text(status, "failed");
    let done = same_text(status, "completed") || failed;
    RunRecordUpdate {
        completed_at: if done { Some(completed_at.to_owned()) } else { None },
        error: if failed { Some(output.to_owned()) } else { None },
    }
}

/// The record of a run started by the scheduler: always complete; a failed
/// run keeps its output as the error.
pub fn scheduled_run_update(status: &str, output: &str, completed_at: &str) -> (r: RunRecordUpdate)
    ensures
        opt_view(r.completed_at) == Some(completed_at@),
        opt_view(r.error) == if status@ == "failed"@ { Some(output@) } else { None },
{
    RunRecordUpdate {
        completed_at: Some(completed_at.to_owned()),
        error: if same_text(status, "failed") { Some(output.to_owned()) } else { None },
    }
}

/// The severity of the audit event for a run: high when it failed.
pub fn run_severity(status: &str) -> (r: &'static str)
    ensures
        r@ == if status@ == "failed"@ { "high"@ } else { "low"@ },
{
    if same_text(status, "failed") { "high" } else { "low" }
}

/// Whether a run counts as a success for its caller: it completed, or it
/// waits for approval.
pub fn run_succeeded(status: &str) -> (r: bool)
    ensures
        r == (status@ == "completed"@ || status@ == "pending_approval"@),
{
    same_text(status, "completed") || same_text(status, "pending_approval")
}

/// Whether an approval action rejects the run.
pub fn is_rejection(req: &ApprovalActionRequest) -> (r: bool)
    ensures
        r == (req.action@ == "reject"@),
{
    same_text(req.action.as_str(), "reject")
}

/// The node an approved run resumes at: the target of the first edge that
/// leaves the paused node.
pub fn resume_node(edges: &Vec<WorkflowEdge>, paused_node_id: &str) -> (r: Option<String>)
    ensures
        opt_view(r) == next_target(edges@, paused_node_id@),
{
    first_target(edges, paused_node_id)
}

/// The status a new workflow gets when none is given.
pub fn default_status() -> (s: String)
    ensures
        s@ == "draft"@,
{
    "draft".to_owned()
}

/// The status of a new workflow: the one given, else `draft`.
pub fn workflow_status(given: Option<String>) -> (s: String)
    ensures
        s@ == match given {
            Some(g) => g@,
            None => "draft"@,
        },
{
    match given {
        Some(g) => g,
        None => default_status(),
    }
}

/// The changes asked for a workflow; nodes and edges as JSON text.
pub struct UpdateWorkflowRequest {
    pub name: Option<String>,
    pub description: Option<String>,
    pub status: Option<String>,
    pub nodes: Option<String>,
    pub edges: Option<String>,
    pub schedule: Option<String>,
}

/// The columns an update sets besides `updated_at`, in order.
pub open spec fn update_columns(req: UpdateWorkflowRequest) -> Seq<Seq<char>> {
    (if req.name is Some { seq!["name"@] } else { seq![] })
        + (if req.description is Some { seq!["description"@] } else { seq![] })
        + (if req.status is Some { seq!["status"@] } else { seq![] })
        + (if req.nodes is Some { seq!["nodes"@] } else { seq![] })
        + (if req.edges is Some { seq!["edges"@] } else { seq![] })
        + (if req.schedule is Some { seq!["schedule"@] } else { seq![] })
}

/// The assignments of an update: `updated_at = $1`, then each column with the
/// next parameter number.
pub open spec fn update_assignments(cols: Seq<Seq<char>>) -> Seq<Seq<char>> {
    seq!["updated_at = $1"@] + Seq::new(cols.len(), |k: int| cols[k] + " = $"@ + decimal((k + 2) as nat))
}

/// The statement that updates a workflow: its parameters are the update
/// time, the value of each column set, and last the workflow's id.
pub open spec fn update_sql(cols: Seq<Seq<char>>) -> Seq<char> {
    "UPDATE workflows SET "@ + join_texts(update_assignments(cols), ", "@) + " WHERE id = $"@
        + decimal((cols.len() + 2) as nat)
}

/// The number of fields an update gives.
pub open spec fn fields_given(req: UpdateWorkflowRequest) -> nat {
    (if req.name is Some { 1nat } else { 0nat }) + (if req.description is Some { 1nat } else { 0nat })
        + (if req.status is Some { 1nat } else { 0nat }) + (if req.nodes is Some { 1nat } else { 0nat })
        + (if req.edges is Some { 1nat } else { 0nat }) + (if req.schedule is Some { 1nat } else { 0nat })
}

proof fn lemma_column_names_distinct()
    ensures
        "name"@ != "description"@, "name"@ != "status"@, "name"@ != "nodes"@,
        "name"@ != "edges"@, "name"@ != "schedule"@,
        "description"@ != "status"@, "description"@ != "nodes"@, "description"@ != "edges"@,
        "description"@ != "schedule"@,
        "status"@ != "nodes"@, "status"@ != "edges"@, "status"@ != "schedule"@,
        "nodes"@ != "edges"@, "nodes"@ != "schedule"@,
        "edges"@ != "schedule"@,
{
    reveal_strlit("name");
    reveal_strlit("description");
    reveal_strlit("status");
    reveal_strlit("nodes");
    reveal_strlit("edges");
    reveal_strlit("schedule");
    assert("name"@.len() != "description"@.len());
    assert("name"@.len() != "status"@.len());
    assert("name"@[1] != "nodes"@[1]);
    assert("name"@[0] != "edges"@[0]);
    assert("name"@.len() != "schedule"@.len());
    assert("description"@.len() != "status"@.len());
    assert("description"@.len() != "nodes"@.len());
    assert("description"@.len() != "edges"@.len());
    assert("description"@.len() != "schedule"@.len());
    assert("status"@.len() != "nodes"@.len());
    assert("status"@.len() != "edges"@.len());
    assert("status"@.len() != "schedule"@.len());
    assert("nodes"@[0] != "edges"@[0]);
    assert("nodes"@.len() != "schedule"@.len());
    assert("edges"@.len() != "schedule"@.len());
}

/// An update sets the column of each field it gives, and no other: a
/// column is among those set exactly when its field is given, each appears
/// once, and there are as many as fields given.
pub proof fn law_update_sets_given_fields(req: UpdateWorkflowRequest)
    ensures
        update_columns(req).contains("name"@) <==> req.name is Some,
        update_columns(req).contains("description"@) <==> req.description is Some,
        update_columns(req).contains("status"@) <==> req.status is Some,
        update_columns(req).contains("nodes"@) <==> req.nodes is Some,
        update_columns(req).contains("edges"@) <==> req.edges is Some,
        update_columns(req).contains("schedule"@) <==> req.schedule is Some,
        update_columns(req).len() == fields_given(req),
        update_columns(req).no_duplicates(),
{
    lemma_column_names_distinct();
    let s0 = Seq::<Seq<char>>::empty();
    assert(s0.no_duplicates());
    let s1 = lemma_append_column(s0, req.name is Some, "name"@);
    let s2 = lemma_append_column(s1, req.description is Some, "description"@);
    let s3 = lemma_append_column(s2, req.status is Some, "status"@);
    let s4 = lemma_append_column(s3, req.nodes is Some, "nodes"@);
    let s5 = lemma_append_column(s4, req.edges is Some, "edges"@);
    let s6 = lemma_append_column(s5, req.schedule is Some, "schedule"@);
    assert(update_columns(req) =~= s6);
}

/// Appending a column, if present, that is not yet among `s`.
proof fn lemma_append_column(s: Seq<Seq<char>>, present: bool, x: Seq<char>) -> (t: Seq<Seq<char>>)
    requires
        s.no_duplicates(),
        !s.contains(x),
    ensures
        t == s + if present { seq![x] } else { Seq::<Seq<char>>::empty() },
        t.no_duplicates(),
        forall|y: Seq<char>| #[trigger] t.contains(y) <==> s.contains(y) || (present && y == x),
        t.len() == s.len() + if present { 1nat } else { 0nat },
{
    let t = s + if present { seq![x] } else { Seq::<Seq<char>>::empty() };
    if present {
        assert(t =~= s.push(x));
        assert forall|y: Seq<char>| #[trigger] t.contains(y) <==> s.contains(y) || y == x by {
            if t.contains(y) {
                let i = choose|i: int| 0 <= i < t.len() && t[i] == y;
                if i < s.len() {
                    assert(s[i] == y);
                }
            }
            if s.contains(y) {
                let i = choose|i: int| 0 <= i < s.len() && s[i] == y;
                assert(t[i] == y);
            }
            if y == x {
                assert(t[s.len() as int] == x);
            }
        }
        assert forall|i: int, j: int| 0 <= i < t.len() && 0 <= j < t.len() && i != j implies t[i] != t[j] by {
            if i < s.len() && j < s.len() {
                assert(s[i] != s[j]);
            } else if i < s.len() {
                assert(s.contains(s[i]));
            } else if j < s.len() {
                assert(s.contains(s[j]));
            }
        }
    } else {
        assert(t =~= s);
    }
    t
}

fn add_column(cols: &mut Vec<String>, present: bool, name: &str)
    ensures
        views(final(cols)@) == views(old(cols)@) + if present { seq![name@] } else { Seq::<Seq<char>>::empty() },
{
    if present {
        cols.push(name.to_owned());
        assert(views(cols@) =~= views(old(cols)@) + seq![name@]);
    } else {
        assert(views(cols@) =~= views(old(cols)@) + Seq::<Seq<char>>::empty());
    }
}

/// The columns an update sets besides `updated_at`, in order.
pub fn updated_columns(req: &UpdateWorkflowRequest) -> (cols: Vec<String>)
    ensures
        views(cols@) == update_columns(*req),
{
    let mut cols: Vec<String> = Vec::new();
    assert(views(cols@) =~= Seq::<Seq<char>>::empty());
    add_column(&mut cols, req.name.is_some(), "name");
    add_column(&mut cols, req.description.is_some(), "description");
    add_column(&mut cols, req.status.is_some(), "status");
    add_column(&mut cols, req.nodes.is_some(), "nodes");
    add_column(&mut cols, req.edges.is_some(), "edges");
    add_column(&mut cols, req.schedule.is_some(), "schedule");
    proof {
        let a: Seq<Seq<char>> = if req.name is Some { seq!["name"@] } else { seq![] };
        let b: Seq<Seq<char>> = if req.description is Some { seq!["description"@] } else { seq![] };
        let c: Seq<Seq<char>> = if req.status is Some { seq!["status"@] } else { seq![] };
        let d: Seq<Seq<char>> = if req.nodes is Some { seq!["nodes"@] } else { seq![] };
        let e: Seq<Seq<char>> = if req.edges is Some { seq!["edges"@] } else { seq![] };
        let f: Seq<Seq<char>> = if req.schedule is Some { seq!["schedule"@] } else { seq![] };
        assert(Seq::<Seq<char>>::empty() + a + b + c + d + e + f =~= a + b + c + d + e + f);
    }
    cols
}

/// The statement that updates a workflow with `req`.
pub fn update_workflow_sql(req: &UpdateWorkflowRequest) -> (sql: String)
    ensures
        sql@ == update_sql(update_columns(*req)),
{
    let cols = updated_columns(req);
    let ghost cv = views(cols@);
    let mut sets: Vec<String> = Vec::new();
    sets.push("updated_at = $1".to_owned());
    let mut i: usize = 0;
    assert(views(sets@) =~= update_assignments(cv).take(1));
    while i < cols.len()
        invariant
            cv == views(cols@),
            cols@.len() <= 6,
            0 <= i <= cols@.len(),
            views(sets@) == update_assignments(cv).take(i + 1),
        decreases cols@.len() - i,
    {
        let n = decimal_text((i + 2) as u64);
        let s = join3(cols[i].as_str(), " = $", n.as_str());
        let ghost before = views(sets@);
        sets.push(s);
        assert(views(sets@) =~= before.push(s@));
        assert(update_assignments(cv)[i + 1] == cv[i as int] + " = $"@ + decimal((i + 2) as nat));
        assert(update_assignments(cv).take(i + 2) =~= update_assignments(cv).take(i + 1).push(update_assignments(cv)[i + 1]));
        assert(views(sets@) =~= update_assignments(cv).take(i + 2));
        i = i + 1;
    }
    assert(update_assignments(cv).take(cols@.len() + 1int) =~= update_assignments(cv));
    let body = join_with(&sets, ", ");
    let n = decimal_text((cols.len() + 2) as u64);
    let head = join3("UPDATE workflows SET ", body.as_str(), " WHERE id = $");
    join2(head.as_str(), n.as_str())
}

} // verus!
