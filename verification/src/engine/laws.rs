//! What holds of every step of an execution.
use vstd::prelude::*;
use crate::casemap::{lower_case, upper_case};
use crate::engine::model::{
    config_text, find_node, first_trigger, labelled_target, node_config_of, node_label_of, node_type_of,
    Workflow, WorkflowNode,
};
use crate::engine::run::{
    after_node, log_line, progress_output, spec_advance, spec_resume, spec_start, visit, ExecView,
    OutcomeView, ProgressView, ResultView, LogLine, WaitKind,
};

verus! {

/// The visited nodes of the execution that a step leaves, if any.
pub open spec fn visited_after(p: ProgressView) -> Option<Seq<Seq<char>>> {
    match p {
        ProgressView::Finished(_) => None,
        ProgressView::Running(e) => Some(e.visited),
        ProgressView::Waiting(e, _) => Some(e.visited),
    }
}

/// The log that a step leaves.
pub open spec fn logs_after(p: ProgressView) -> Seq<LogLine> {
    match p {
        ProgressView::Finished(r) => r.logs,
        ProgressView::Running(e) => e.logs,
        ProgressView::Waiting(e, _) => e.logs,
    }
}

/// The context that a step leaves.
pub open spec fn context_after(p: ProgressView) -> Map<Seq<char>, Seq<char>> {
    match p {
        ProgressView::Finished(r) => r.context,
        ProgressView::Running(e) => e.context,
        ProgressView::Waiting(e, _) => e.context,
    }
}

/// The statuses an execution ends with, and when it names a paused node.
pub open spec fn well_formed_result(r: ResultView) -> bool {
    &&& (r.status == "completed"@ || r.status == "failed"@ || r.status == "pending_approval"@
        || r.status == "paused"@)
    &&& (r.paused is Some <==> (r.status == "pending_approval"@ || r.status == "paused"@))
}

/// The statuses a step can end an execution with.
pub open spec fn finished_well(p: ProgressView) -> bool {
    match p {
        ProgressView::Finished(r) => well_formed_result(r),
        _ => true,
    }
}

proof fn lemma_names_distinct()
    ensures
        "completed"@ != "failed"@,
        "completed"@ != "paused"@,
        "completed"@ != "pending_approval"@,
        "failed"@ != "paused"@,
        "failed"@ != "pending_approval"@,
        "paused"@ != "pending_approval"@,
        "approval"@ != "trigger"@,
        "approval"@ != "agent"@,
        "approval"@ != "condition"@,
{
    reveal_strlit("completed");
    reveal_strlit("failed");
    reveal_strlit("paused");
    reveal_strlit("pending_approval");
    reveal_strlit("approval");
    reveal_strlit("trigger");
    reveal_strlit("agent");
    reveal_strlit("condition");
    assert("completed"@.len() != "failed"@.len());
    assert("completed"@.len() != "paused"@.len());
    assert("completed"@.len() != "pending_approval"@.len());
    assert("failed"@[0] != "paused"@[0]);
    assert("failed"@.len() != "pending_approval"@.len());
    assert("paused"@.len() != "pending_approval"@.len());
    assert("approval"@.len() != "trigger"@.len());
    assert("approval"@.len() != "agent"@.len());
    assert("approval"@.len() != "condition"@.len());
}

proof fn lemma_visit(wf: Workflow, e: ExecView, node: crate::engine::model::WorkflowNode, now: u64)
    ensures
        visited_after(visit(wf, e, node, now)) matches Some(v) ==> v == e.visited,
        e.logs.is_prefix_of(logs_after(visit(wf, e, node, now))),
        context_after(visit(wf, e, node, now)) == e.context,
        finished_well(visit(wf, e, node, now)),
        node_type_of(node) == "approval"@ ==> (visit(wf, e, node, now) matches ProgressView::Finished(r)
            && r.status == "pending_approval"@ && r.paused == Some(node.id@)),
        e.debug && node_type_of(node) != "http"@ ==> !(visit(wf, e, node, now) is Running),
{
    let p = visit(wf, e, node, now);
    lemma_names_distinct();
    assert(e.logs.is_prefix_of(logs_after(p))) by {
        assert forall|i: int| 0 <= i < e.logs.len() implies e.logs[i] == logs_after(p)[i] by {
            assert(logs_after(p).len() >= e.logs.len());
        }
    }
}

/// Each step that leaves an execution running runs a node that had not run
/// before: the node is added to the visited ones, and it is a node of the
/// workflow. So no node runs twice, and an execution takes at most as many
/// such steps as the workflow has nodes.
pub proof fn law_advance_visits_a_new_node(wf: Workflow, e: ExecView, now: u64)
    requires
        e.waiting is None,
    ensures
        visited_after(spec_advance(wf, e, now)) matches Some(v) ==> exists|i: int|
            0 <= i < wf.nodes@.len() && !e.visited.contains(#[trigger] wf.nodes@[i].id@)
                && v == e.visited.push(wf.nodes@[i].id@),
{
    match e.current {
        None => {},
        Some(id) => match find_node(wf.nodes@, id) {
            None => {},
            Some(i) => {
                lemma_find_node_in_range(wf.nodes@, id);
                let node = wf.nodes@[i];
                if !e.visited.contains(node.id@) {
                    lemma_visit(wf, ExecView { visited: e.visited.push(node.id@), ..e }, node, now);
                }
            },
        },
    }
}

proof fn lemma_find_node_in_range(nodes: Seq<crate::engine::model::WorkflowNode>, id: Seq<char>)
    ensures
        find_node(nodes, id) matches Some(i) ==> 0 <= i < nodes.len() && nodes[i].id@ == id,
    decreases nodes.len(),
{
    if nodes.len() > 0 && nodes.last().id@ != id {
        lemma_find_node_in_range(nodes.drop_last(), id);
    }
}

/// Taking an outside outcome never runs another node.
pub proof fn law_resume_visits_no_node(wf: Workflow, e: ExecView, o: OutcomeView, now: u64)
    ensures
        visited_after(spec_resume(wf, e, o, now)) matches Some(v) ==> v == e.visited,
{
    lemma_names_distinct();
}

/// The log only grows: a step keeps every line written before it.
pub proof fn law_log_only_grows(wf: Workflow, e: ExecView, o: OutcomeView, now: u64)
    ensures
        e.waiting is None ==> e.logs.is_prefix_of(logs_after(spec_advance(wf, e, now))),
        e.logs.is_prefix_of(logs_after(spec_resume(wf, e, o, now))),
{
    if e.waiting is None {
        match e.current {
            None => {},
            Some(id) => match find_node(wf.nodes@, id) {
                None => {},
                Some(i) => {
                    lemma_find_node_in_range(wf.nodes@, id);
                    let node = wf.nodes@[i];
                    if !e.visited.contains(node.id@) {
                        lemma_visit(wf, ExecView { visited: e.visited.push(node.id@), ..e }, node, now);
                    }
                },
            },
        }
    }
    assert(e.logs.is_prefix_of(logs_after(spec_resume(wf, e, o, now)))) by {
        let q = logs_after(spec_resume(wf, e, o, now));
        assert(q.len() >= e.logs.len());
        assert forall|i: int| 0 <= i < e.logs.len() implies e.logs[i] == q[i] by {}
    }
}

/// Only a node's own outside result is written into the context, under the
/// node's id; running a node without outside work leaves the context as it is.
pub proof fn law_context_written_only_by_outside_results(wf: Workflow, e: ExecView, o: OutcomeView, now: u64)
    ensures
        e.waiting is None ==> context_after(spec_advance(wf, e, now)) == e.context,
        e.waiting matches Some((id, _)) ==> (context_after(spec_resume(wf, e, o, now)) == e.context
            || exists|v: Seq<char>| context_after(spec_resume(wf, e, o, now)) == e.context.insert(id, v)),
{
    if e.waiting is None {
        match e.current {
            None => {},
            Some(id) => match find_node(wf.nodes@, id) {
                None => {},
                Some(i) => {
                    let node = wf.nodes@[i];
                    if !e.visited.contains(node.id@) {
                        lemma_visit(wf, ExecView { visited: e.visited.push(node.id@), ..e }, node, now);
                    }
                },
            },
        }
    }
}

/// An approval node that is reached stops the execution as pending approval,
/// naming the node.
pub proof fn law_approval_pauses(wf: Workflow, e: ExecView, now: u64)
    requires
        e.waiting is None,
        e.current matches Some(id) && find_node(wf.nodes@, id) matches Some(i)
            && node_type_of(wf.nodes@[i]) == "approval"@ && !e.visited.contains(wf.nodes@[i].id@),
    ensures
        spec_advance(wf, e, now) matches ProgressView::Finished(r) && r.status == "pending_approval"@
            && r.paused == Some(wf.nodes@[find_node(wf.nodes@, e.current->0)->0].id@),
{
    let id = e.current->0;
    let i = find_node(wf.nodes@, id)->0;
    let node = wf.nodes@[i];
    lemma_visit(wf, ExecView { visited: e.visited.push(node.id@), ..e }, node, now);
}

/// In debug mode an execution stops after every node that finishes, paused
/// at the next node if there is one; the one exception is an HTTP node with a
/// method other than GET and POST, which does no outside work.
pub proof fn law_debug_mode_pauses(wf: Workflow, e: ExecView, o: OutcomeView, now: u64)
    requires
        e.debug,
    ensures
        spec_resume(wf, e, o, now) is Finished,
        (e.waiting is None && spec_advance(wf, e, now) is Running) ==> (e.current matches Some(id)
            && find_node(wf.nodes@, id) matches Some(i) && node_type_of(wf.nodes@[i]) == "http"@),
        (spec_resume(wf, e, o, now) matches ProgressView::Finished(r)
            ==> (r.status == "paused"@ ==> r.paused is Some)),
{
    lemma_names_distinct();
    if e.waiting is None {
        match e.current {
            None => {},
            Some(id) => match find_node(wf.nodes@, id) {
                None => {},
                Some(i) => {
                    let node = wf.nodes@[i];
                    if !e.visited.contains(node.id@) {
                        lemma_visit(wf, ExecView { visited: e.visited.push(node.id@), ..e }, node, now);
                    }
                },
            },
        }
    }
}

/// Every finished execution has one of the four statuses, and names a paused
/// node exactly when it is paused or pending approval.
pub proof fn law_finished_statuses(wf: Workflow, e: ExecView, o: OutcomeView, now: u64)
    ensures
        e.waiting is None ==> finished_well(spec_advance(wf, e, now)),
        finished_well(spec_resume(wf, e, o, now)),
{
    lemma_names_distinct();
    if e.waiting is None {
        match e.current {
            None => {},
            Some(id) => match find_node(wf.nodes@, id) {
                None => {},
                Some(i) => {
                    let node = wf.nodes@[i];
                    if !e.visited.contains(node.id@) {
                        lemma_visit(wf, ExecView { visited: e.visited.push(node.id@), ..e }, node, now);
                    }
                },
            },
        }
    }
}

/// A list of distinct node ids of a workflow is no longer than its list of
/// nodes: this bounds the number of nodes an execution runs.
pub proof fn law_visited_bounded(wf: Workflow, visited: Seq<Seq<char>>)
    requires
        visited.no_duplicates(),
        forall|k: int| 0 <= k < visited.len() ==> exists|i: int|
            0 <= i < wf.nodes@.len() && #[trigger] visited[k] == wf.nodes@[i].id@,
    ensures
        visited.len() <= wf.nodes@.len(),
{
    let ids = wf.nodes@.map_values(|n: crate::engine::model::WorkflowNode| n.id@);
    assert(visited.to_set().subset_of(ids.to_set())) by {
        assert forall|x: Seq<char>| visited.to_set().contains(x) implies ids.to_set().contains(x) by {
            let k = choose|k: int| 0 <= k < visited.len() && visited[k] == x;
            let i = choose|i: int| 0 <= i < wf.nodes@.len() && #[trigger] visited[k] == wf.nodes@[i].id@;
            assert(ids[i] == x);
        }
    }
    visited.unique_seq_to_set();
    ids.lemma_cardinality_of_set();
    vstd::set_lib::lemma_len_subset(visited.to_set(), ids.to_set());
}


/// An execution resumed at a node of the workflow, with the context of an
/// earlier run, starts at that node with that context and an empty log; one
/// resumed at a node the workflow lacks fails at once, keeping the context.
pub proof fn law_resume_keeps_context(
    wf: Workflow,
    url: Option<Seq<char>>,
    ctx: Map<Seq<char>, Seq<char>>,
    node_id: Seq<char>,
    debug: bool,
)
    ensures
        find_node(wf.nodes@, node_id) is Some ==> (spec_start(wf, url, Some(ctx), Some(node_id), debug)
            matches ProgressView::Running(e) && e.current == Some(node_id) && e.context == ctx
            && e.logs.len() == 0 && e.visited.len() == 0 && e.waiting is None),
        find_node(wf.nodes@, node_id) is None ==> (spec_start(wf, url, Some(ctx), Some(node_id), debug)
            matches ProgressView::Finished(r) && r.status == "failed"@ && r.context == ctx),
{
    lemma_find_node_in_range(wf.nodes@, node_id);
}

/// Without a start node an execution starts at the first trigger node, or at
/// the first node when there is no trigger; an empty workflow fails at once.
pub proof fn law_start_node(wf: Workflow, url: Option<Seq<char>>, debug: bool)
    ensures
        wf.nodes@.len() == 0 ==> (spec_start(wf, url, None, None, debug) matches ProgressView::Finished(r)
            && r.status == "failed"@ && r.output == "Target node not found"@),
        wf.nodes@.len() > 0 ==> (spec_start(wf, url, None, None, debug) matches ProgressView::Running(e)
            && e.current == Some(match first_trigger(wf.nodes@) {
                Some(i) => wf.nodes@[i].id@,
                None => wf.nodes@[0].id@,
            })),
{
    if wf.nodes@.len() == 0 {
        assert(first_trigger(wf.nodes@) is None);
    }
}

/// The node an execution goes on to after a step: the one it stands at,
/// or, once finished, the one it paused at.
pub open spec fn node_after(p: ProgressView) -> Option<Seq<char>> {
    match p {
        ProgressView::Finished(r) => r.paused,
        ProgressView::Running(e) => e.current,
        ProgressView::Waiting(e, _) => e.current,
    }
}

proof fn lemma_step_names()
    ensures
        "condition"@ != "trigger"@,
        "condition"@ != "agent"@,
        "data_transform"@ != "trigger"@,
        "data_transform"@ != "agent"@,
        "data_transform"@ != "condition"@,
        "data_transform"@ != "approval"@,
        "data_transform"@ != "swarm"@,
        "data_transform"@ != "action"@,
        "data_transform"@ != "loop"@,
        "data_transform"@ != "http"@,
        "data_transform"@ != "delay"@,
        "uppercase"@ != "json_parse"@,
        "lowercase"@ != "json_parse"@,
        "lowercase"@ != "uppercase"@,
        "1"@ != "true"@,
{
    reveal_strlit("condition");
    reveal_strlit("trigger");
    reveal_strlit("agent");
    reveal_strlit("data_transform");
    reveal_strlit("approval");
    reveal_strlit("swarm");
    reveal_strlit("action");
    reveal_strlit("loop");
    reveal_strlit("http");
    reveal_strlit("delay");
    reveal_strlit("uppercase");
    reveal_strlit("lowercase");
    reveal_strlit("json_parse");
    reveal_strlit("1");
    reveal_strlit("true");
    assert("condition"@.len() != "trigger"@.len());
    assert("condition"@.len() != "agent"@.len());
    assert("data_transform"@.len() != "trigger"@.len());
    assert("data_transform"@.len() != "agent"@.len());
    assert("data_transform"@.len() != "condition"@.len());
    assert("data_transform"@.len() != "approval"@.len());
    assert("data_transform"@.len() != "swarm"@.len());
    assert("data_transform"@.len() != "action"@.len());
    assert("data_transform"@.len() != "loop"@.len());
    assert("data_transform"@.len() != "http"@.len());
    assert("data_transform"@.len() != "delay"@.len());
    assert("uppercase"@.len() != "json_parse"@.len());
    assert("lowercase"@.len() != "json_parse"@.len());
    assert("lowercase"@[0] != "uppercase"@[0]);
    assert("1"@.len() != "true"@.len());
}

/// A condition node whose expression is `true` or `1` (or that has none)
/// holds: it logs `result: true` and goes on along the edge labelled
/// `true`; with any other expression it logs `result: false` and goes on
/// along the edge labelled `false` (either, when there is no such edge,
/// along the first edge that leaves it).
pub proof fn law_condition_branches(wf: Workflow, e: ExecView, node: WorkflowNode, now: u64)
    requires
        node_type_of(node) == "condition"@,
    ensures
        ({
            let expr = config_text(node_config_of(node), "expression"@);
            let holds = expr is None || expr == Some("true"@) || expr == Some("1"@);
            let answer = if holds { "true"@ } else { "false"@ };
            let p = visit(wf, e, node, now);
            &&& logs_after(p) == e.logs.push(log_line(
                node.id@,
                "Condition ["@ + node_label_of(node) + "] result: "@ + answer,
                now,
            ))
            &&& node_after(p) == labelled_target(wf.edges@, node.id@, answer)
        }),
{
    lemma_step_names();
    reveal_strlit("true");
    reveal_strlit("false");
}

/// A model reply that a waiting agent node gets becomes the execution's
/// output, and is kept in the context under the node's id.
pub proof fn law_model_reply_becomes_output(wf: Workflow, e: ExecView, id: Seq<char>, r: Seq<char>, now: u64)
    requires
        e.waiting == Some((id, WaitKind::Model)),
    ensures
        progress_output(spec_resume(wf, e, OutcomeView::Model(Ok(r)), now)) == r,
        context_after(spec_resume(wf, e, OutcomeView::Model(Ok(r)), now)) == e.context.insert(id, r),
{
}

/// A data transform of type `uppercase` leaves the upper-case mapping of the
/// output before it as the output, and one of type `lowercase` the
/// lower-case mapping.
pub proof fn law_case_transforms(wf: Workflow, e: ExecView, node: WorkflowNode, now: u64)
    requires
        node_type_of(node) == "data_transform"@,
    ensures
        config_text(node_config_of(node), "transformType"@) == Some("uppercase"@)
            ==> progress_output(visit(wf, e, node, now)) == upper_case(e.output),
        config_text(node_config_of(node), "transformType"@) == Some("lowercase"@)
            ==> progress_output(visit(wf, e, node, now)) == lower_case(e.output),
{
    lemma_step_names();
}

} // verus!
