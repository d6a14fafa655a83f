//! Workflow execution as a state machine.
//!
//! The engine decides; the caller performs the outside work that a step asks
//! for (a model call, an HTTP request, a pause) and hands the outcome back.
use vstd::prelude::*;
use crate::casemap::{lower_case, to_lower, to_upper, upper_case};
use crate::engine::model::{
    config_count, config_lookup, config_text, count_or_default, find_node, first_target,
    first_trigger, get_node_config, get_node_label, get_node_type, locate_first_trigger,
    locate_node, lookup_config, next_target, node_config_of, node_label_of,
    node_type_of, opt_view, target_for_label, labelled_target, text_or, text_or_default,
    value_text, ConfigEntry, ConfigValue, Workflow, WorkflowNode,
};
use crate::json::{
    json_array_item_texts, json_pretty_text, json_string_literal, parse_json_array, pretty_json,
    quote_json,
};
use crate::strmap::StrMap;
use crate::text::{
    contains_str, contains_text, decimal, decimal_text, join2, join3, join4, lines, lines_of,
    replace_all, replace_text, same_text, trim, trim_text, views,
};

verus! {

// ── Data ──────────────────────────────────────────────────

/// One line of the execution log.
pub struct ExecutionLog {
    pub node_id: String,
    pub message: String,
    pub timestamp: String,
}

/// What an execution ended with.
pub struct ExecutionResult {
    pub status: String,
    pub output: String,
    pub logs: Vec<ExecutionLog>,
    pub context: StrMap<String>,
    pub paused_node_id: Option<String>,
}

/// The kind of outside work an execution waits for.
#[derive(PartialEq, Eq, Structural, Clone, Copy)]
pub enum WaitKind {
    Model,
    Models,
    Http,
    Sleep,
}

struct Waiting {
    node_id: String,
    kind: WaitKind,
}

/// A running execution.
pub struct Execution {
    ollama_url: String,
    debug_mode: bool,
    output: String,
    logs: Vec<ExecutionLog>,
    context: StrMap<String>,
    visited: Vec<String>,
    current: Option<String>,
    waiting: Option<Waiting>,
}

/// Outside work that a step asks for.
pub enum Request {
    /// Generate text with `model` at the model server `url`.
    CallModel { url: String, model: String, prompt: String },
    /// Generate text for each prompt, all at once.
    CallModels { url: String, model: String, prompts: Vec<String> },
    /// Fetch `url`.
    HttpGet { url: String },
    /// Post `body` to `url`.
    HttpPost { url: String, body: String },
    /// Wait for `seconds`.
    Sleep { seconds: u64 },
}

/// What became of an HTTP request.
pub enum HttpOutcome {
    /// A success status, with the body read as text.
    Body(String),
    /// A success status, but the body could not be read (the error's text).
    ReadFailed(String),
    /// A status other than success (the status's text).
    Status(String),
    /// The request failed (the error's text).
    Failed(String),
}

/// The outcome of the outside work that a step asked for.
pub enum Outcome {
    Model(Result<String, String>),
    Models(Vec<Result<String, String>>),
    Http(HttpOutcome),
    Slept,
}

/// Where an execution stands after a step.
pub enum Progress {
    Finished(ExecutionResult),
    Running(Execution),
    Waiting(Execution, Request),
}

// ── Views ─────────────────────────────────────────────────

pub struct LogLine {
    pub node_id: Seq<char>,
    pub message: Seq<char>,
    pub timestamp: Seq<char>,
}

pub struct ResultView {
    pub status: Seq<char>,
    pub output: Seq<char>,
    pub logs: Seq<LogLine>,
    pub context: Map<Seq<char>, Seq<char>>,
    pub paused: Option<Seq<char>>,
}

pub struct ExecView {
    pub url: Seq<char>,
    pub debug: bool,
    pub output: Seq<char>,
    pub logs: Seq<LogLine>,
    pub context: Map<Seq<char>, Seq<char>>,
    pub visited: Seq<Seq<char>>,
    pub current: Option<Seq<char>>,
    pub waiting: Option<(Seq<char>, WaitKind)>,
}

pub enum RequestView {
    CallModel { url: Seq<char>, model: Seq<char>, prompt: Seq<char> },
    CallModels { url: Seq<char>, model: Seq<char>, prompts: Seq<Seq<char>> },
    HttpGet { url: Seq<char> },
    HttpPost { url: Seq<char>, body: Seq<char> },
    Sleep { seconds: u64 },
}

pub enum HttpOutcomeView {
    Body(Seq<char>),
    ReadFailed(Seq<char>),
    Status(Seq<char>),
    Failed(Seq<char>),
}

pub enum OutcomeView {
    Model(Result<Seq<char>, Seq<char>>),
    Models(Seq<Result<Seq<char>, Seq<char>>>),
    Http(HttpOutcomeView),
    Slept,
}

pub enum ProgressView {
    Finished(ResultView),
    Running(ExecView),
    Waiting(ExecView, RequestView),
}

pub open spec fn log_view(l: ExecutionLog) -> LogLine {
    LogLine { node_id: l.node_id@, message: l.message@, timestamp: l.timestamp@ }
}

pub open spec fn logs_view(ls: Seq<ExecutionLog>) -> Seq<LogLine> {
    ls.map_values(|l: ExecutionLog| log_view(l))
}

pub open spec fn ctx_view(m: StrMap<String>) -> Map<Seq<char>, Seq<char>> {
    m@.map_values(|s: String| s@)
}

pub open spec fn result_view(r: ExecutionResult) -> ResultView {
    ResultView {
        status: r.status@,
        output: r.output@,
        logs: logs_view(r.logs@),
        context: ctx_view(r.context),
        paused: opt_view(r.paused_node_id),
    }
}

pub open spec fn request_view(r: Request) -> RequestView {
    match r {
        Request::CallModel { url, model, prompt } => RequestView::CallModel { url: url@, model: model@, prompt: prompt@ },
        Request::CallModels { url, model, prompts } => RequestView::CallModels { url: url@, model: model@, prompts: views(prompts@) },
        Request::HttpGet { url } => RequestView::HttpGet { url: url@ },
        Request::HttpPost { url, body } => RequestView::HttpPost { url: url@, body: body@ },
        Request::Sleep { seconds } => RequestView::Sleep { seconds },
    }
}

pub open spec fn reply_view(r: Result<String, String>) -> Result<Seq<char>, Seq<char>> {
    match r {
        Ok(s) => Ok(s@),
        Err(e) => Err(e@),
    }
}

pub open spec fn outcome_view(o: Outcome) -> OutcomeView {
    match o {
        Outcome::Model(r) => OutcomeView::Model(reply_view(r)),
        Outcome::Models(rs) => OutcomeView::Models(rs@.map_values(|r: Result<String, String>| reply_view(r))),
        Outcome::Http(h) => OutcomeView::Http(match h {
            HttpOutcome::Body(s) => HttpOutcomeView::Body(s@),
            HttpOutcome::ReadFailed(s) => HttpOutcomeView::ReadFailed(s@),
            HttpOutcome::Status(s) => HttpOutcomeView::Status(s@),
            HttpOutcome::Failed(s) => HttpOutcomeView::Failed(s@),
        }),
        Outcome::Slept => OutcomeView::Slept,
    }
}

/// The kind of wait that an outcome answers.
pub open spec fn outcome_kind(o: OutcomeView) -> WaitKind {
    match o {
        OutcomeView::Model(_) => WaitKind::Model,
        OutcomeView::Models(_) => WaitKind::Models,
        OutcomeView::Http(_) => WaitKind::Http,
        OutcomeView::Slept => WaitKind::Sleep,
    }
}

impl Execution {
    pub closed spec fn view(&self) -> ExecView {
        ExecView {
            url: self.ollama_url@,
            debug: self.debug_mode,
            output: self.output@,
            logs: logs_view(self.logs@),
            context: ctx_view(self.context),
            visited: views(self.visited@),
            current: opt_view(self.current),
            waiting: match self.waiting {
                Some(w) => Some((w.node_id@, w.kind)),
                None => None,
            },
        }
    }
}

pub open spec fn progress_view(p: Progress) -> ProgressView {
    match p {
        Progress::Finished(r) => ProgressView::Finished(result_view(r)),
        Progress::Running(e) => ProgressView::Running(e.view()),
        Progress::Waiting(e, q) => ProgressView::Waiting(e.view(), request_view(q)),
    }
}

// ── The specification of a step ───────────────────────────

/// The timestamp of a log line written at `now` (seconds since the epoch).
pub open spec fn stamp(now: u64) -> Seq<char> {
    decimal(now as nat) + "Z"@
}

pub open spec fn log_line(id: Seq<char>, message: Seq<char>, now: u64) -> LogLine {
    LogLine { node_id: id, message, timestamp: stamp(now) }
}

impl ExecView {
    pub open spec fn log(self, id: Seq<char>, message: Seq<char>, now: u64) -> ExecView {
        ExecView { logs: self.logs.push(log_line(id, message, now)), ..self }
    }

    pub open spec fn goto(self, next: Option<Seq<char>>) -> ExecView {
        ExecView { current: next, ..self }
    }

    pub open spec fn finish(self, status: Seq<char>, paused: Option<Seq<char>>) -> ResultView {
        ResultView { status, output: self.output, logs: self.logs, context: self.context, paused }
    }
}

/// After a node is done: pause in debug mode if there is a next node; end
/// when there is none.
pub open spec fn after_node(e: ExecView) -> ProgressView {
    if e.debug && e.current is Some {
        ProgressView::Finished(e.finish("paused"@, e.current))
    } else if e.current is None {
        ProgressView::Finished(e.finish("completed"@, None))
    } else {
        ProgressView::Running(e)
    }
}

/// The default model server.
pub open spec fn default_ollama_url() -> Seq<char> {
    "http://localhost:11434"@
}

/// Where an execution starts.
pub open spec fn spec_start(
    wf: Workflow,
    url: Option<Seq<char>>,
    ctx: Option<Map<Seq<char>, Seq<char>>>,
    start: Option<Seq<char>>,
    debug: bool,
) -> ProgressView {
    let url = text_or(url, default_ollama_url());
    let context = match ctx {
        Some(c) => c,
        None => Map::empty(),
    };
    let nodes = wf.nodes@;
    let index = match start {
        Some(sid) => find_node(nodes, sid),
        None => match first_trigger(nodes) {
            Some(i) => Some(i),
            None => if nodes.len() > 0 { Some(0) } else { None },
        },
    };
    match index {
        None => ProgressView::Finished(ResultView {
            status: "failed"@,
            output: "Target node not found"@,
            logs: seq![],
            context,
            paused: None,
        }),
        Some(i) => ProgressView::Running(ExecView {
            url,
            debug,
            output: seq![],
            logs: seq![],
            context,
            visited: seq![],
            current: Some(nodes[i].id@),
            waiting: None,
        }),
    }
}

/// The prompt that an agent node starts from.
pub open spec fn agent_base_prompt(cfg: Seq<ConfigEntry>) -> Seq<char> {
    let v = match config_lookup(cfg, "systemPrompt"@) {
        Some(v) => Some(v),
        None => config_lookup(cfg, "prompt"@),
    };
    text_or(value_text(v), "You are a helpful assistant."@)
}

/// The prompt that an agent node sends, given the output so far.
pub open spec fn agent_prompt(base: Seq<char>, output: Seq<char>) -> Seq<char> {
    if contains_text(base, "{{output}}"@) {
        replace_all(base, "{{output}}"@, output)
    } else if output.len() > 0 {
        base + "\n\nContext to process:\n"@ + output
    } else {
        base
    }
}

/// The JSON string of each line of `ls` that is not blank, trimmed.
pub open spec fn line_items(ls: Seq<Seq<char>>) -> Seq<Seq<char>>
    decreases ls.len(),
{
    if ls.len() == 0 {
        seq![]
    } else {
        line_items(ls.drop_last()) + (if trim(ls.last()).len() > 0 {
            seq![json_string_literal(trim(ls.last()))]
        } else {
            seq![]
        })
    }
}

/// The items a swarm node works on: the `items` list of its configuration;
/// else the JSON array stored in the context under `itemsKey` (default
/// `items`); else the non-blank lines of the output.
pub open spec fn swarm_items(cfg: Seq<ConfigEntry>, ctx: Map<Seq<char>, Seq<char>>, output: Seq<char>) -> Seq<Seq<char>> {
    match config_lookup(cfg, "items"@) {
        Some(ConfigValue::List(items)) => views(items@),
        Some(_) => line_items(lines(output)),
        None => {
            let key = text_or(config_text(cfg, "itemsKey"@), "items"@);
            let parsed = if ctx.contains_key(key) {
                json_array_item_texts(ctx[key])
            } else {
                None
            };
            match parsed {
                Some(items) => items,
                None => line_items(lines(output)),
            }
        },
    }
}

/// The prompt for each swarm item.
pub open spec fn swarm_prompts(sub: Seq<char>, items: Seq<Seq<char>>) -> Seq<Seq<char>> {
    items.map_values(|it: Seq<char>| replace_all(sub, "{{item}}"@, it))
}

/// The log lines of a loop node's iterations `1..=n`.
pub open spec fn loop_lines(id: Seq<char>, n: nat, now: u64) -> Seq<LogLine>
    decreases n,
{
    if n == 0 {
        seq![]
    } else {
        loop_lines(id, (n - 1) as nat, now).push(log_line(id, "Loop iteration "@ + decimal(n), now))
    }
}

/// The log lines for the failed calls of a swarm.
pub open spec fn swarm_failure_lines(id: Seq<char>, rs: Seq<Result<Seq<char>, Seq<char>>>, now: u64) -> Seq<LogLine>
    decreases rs.len(),
{
    if rs.len() == 0 {
        seq![]
    } else {
        swarm_failure_lines(id, rs.drop_last(), now) + match rs.last() {
            Ok(_) => seq![],
            Err(e) => seq![log_line(id, "Swarm sub-agent "@ + decimal((rs.len() - 1) as nat) + " failed: "@ + e, now)],
        }
    }
}

/// The text of a boolean.
pub open spec fn bool_text(b: bool) -> Seq<char> {
    if b { "true"@ } else { "false"@ }
}

/// A data transform node: the new output, and a message to log if any.
pub open spec fn transform(kind: Seq<char>, output: Seq<char>) -> (Seq<char>, Option<Seq<char>>) {
    if kind == "json_parse"@ {
        match json_pretty_text(output) {
            Some(p) => (p, None),
            None => (output, Some("Failed to parse JSON"@)),
        }
    } else if kind == "uppercase"@ {
        (upper_case(output), None)
    } else if kind == "lowercase"@ {
        (lower_case(output), None)
    } else if kind == "trim"@ {
        (trim(output), None)
    } else {
        (output, Some("Unknown transform type: "@ + kind))
    }
}

/// Runs the node `node`, already marked visited in `e`.
pub open spec fn visit(wf: Workflow, e: ExecView, node: WorkflowNode, now: u64) -> ProgressView {
    let id = node.id@;
    let cfg = node_config_of(node);
    let label = node_label_of(node);
    let t = node_type_of(node);
    let next = next_target(wf.edges@, id);
    if t == "trigger"@ {
        after_node(e.log(id, "Trigger executed: "@ + label, now).goto(next))
    } else if t == "agent"@ {
        let model = text_or(config_text(cfg, "model"@), "llama3.2"@);
        let prompt = agent_prompt(agent_base_prompt(cfg), e.output);
        ProgressView::Waiting(
            ExecView { waiting: Some((id, WaitKind::Model)), ..e.log(id, "Agent ["@ + label + "] calling "@ + model, now) },
            RequestView::CallModel { url: e.url, model, prompt },
        )
    } else if t == "condition"@ {
        let expr = text_or(config_text(cfg, "expression"@), "true"@);
        let result = expr == "true"@ || expr == "1"@;
        after_node(e.log(id, "Condition ["@ + label + "] result: "@ + bool_text(result), now).goto(
            labelled_target(wf.edges@, id, bool_text(result)),
        ))
    } else if t == "approval"@ {
        ProgressView::Finished(e.log(id, "Paused for manual approval: "@ + label, now).finish("pending_approval"@, Some(id)))
    } else if t == "swarm"@ {
        let model = text_or(config_text(cfg, "model"@), "llama3.2"@);
        let sub = text_or(config_text(cfg, "subPrompt"@), "Process this item: {{item}}"@);
        let items = swarm_items(cfg, e.context, e.output);
        ProgressView::Waiting(
            ExecView {
                waiting: Some((id, WaitKind::Models)),
                ..e.log(id, "Swarm ["@ + label + "] spawning "@ + decimal(items.len()) + " parallel agents"@, now)
            },
            RequestView::CallModels { url: e.url, model, prompts: swarm_prompts(sub, items) },
        )
    } else if t == "action"@ {
        let kind = text_or(config_text(cfg, "actionType"@), "log"@);
        after_node(e.log(id, "Action ["@ + label + "] type: "@ + kind, now).goto(next))
    } else if t == "loop"@ {
        let n: u64 = match config_count(cfg, "iterations"@) {
            Some(n) => n,
            None => 1,
        };
        let target = text_or(config_text(cfg, "loopTarget"@), "start"@);
        let e1 = e.log(id, "Loop ["@ + label + "] iterations: "@ + decimal(n as nat) + ", target: "@ + target, now);
        after_node(ExecView { logs: e1.logs + loop_lines(id, n as nat, now), ..e1 }.goto(next))
    } else if t == "http"@ {
        let url = text_or(config_text(cfg, "url"@), ""@);
        let method = text_or(config_text(cfg, "method"@), "GET"@);
        let e1 = e.log(id, "HTTP ["@ + label + "] "@ + method + " "@ + url, now);
        if method == "GET"@ {
            ProgressView::Waiting(ExecView { waiting: Some((id, WaitKind::Http)), ..e1 }, RequestView::HttpGet { url })
        } else if method == "POST"@ {
            let body = text_or(config_text(cfg, "body"@), ""@);
            ProgressView::Waiting(ExecView { waiting: Some((id, WaitKind::Http)), ..e1 }, RequestView::HttpPost { url, body })
        } else {
            let e2 = e1.log(id, "Unsupported HTTP method: "@ + method, now).goto(next);
            if e2.current is None {
                ProgressView::Finished(e2.finish("completed"@, None))
            } else {
                ProgressView::Running(e2)
            }
        }
    } else if t == "delay"@ {
        let seconds: u64 = match config_count(cfg, "seconds"@) {
            Some(n) => n,
            None => 1,
        };
        ProgressView::Waiting(
            ExecView {
                waiting: Some((id, WaitKind::Sleep)),
                ..e.log(id, "Delay ["@ + label + "] for "@ + decimal(seconds as nat) + " seconds"@, now)
            },
            RequestView::Sleep { seconds },
        )
    } else if t == "data_transform"@ {
        let kind = text_or(config_text(cfg, "transformType"@), "json_parse"@);
        let e1 = e.log(id, "Data Transform ["@ + label + "] type: "@ + kind, now);
        let (out, note) = transform(kind, e.output);
        let e2 = match note {
            Some(m) => e1.log(id, m, now),
            None => e1,
        };
        after_node(ExecView { output: out, ..e2 }.goto(next))
    } else if t == "end"@ {
        after_node(e.log(id, "Workflow complete"@, now).goto(None))
    } else {
        after_node(e.log(id, "Unknown node type: "@ + t, now).goto(None))
    }
}

/// Whether `node` is a data transform that maps the output to upper or
/// lower case.
pub open spec fn is_case_transform(node: WorkflowNode) -> bool {
    let kind = text_or(config_text(node_config_of(node), "transformType"@), "json_parse"@);
    node_type_of(node) == "data_transform"@ && (kind == "uppercase"@ || kind == "lowercase"@)
}

/// Whether the next step of `e` runs a case-mapping data transform.
pub open spec fn runs_case_transform(wf: Workflow, e: ExecView) -> bool {
    &&& e.current matches Some(id)
    &&& find_node(wf.nodes@, id) matches Some(i)
    &&& !e.visited.contains(wf.nodes@[i].id@)
    &&& is_case_transform(wf.nodes@[i])
}

/// The output that a step leaves.
pub open spec fn progress_output(p: ProgressView) -> Seq<char> {
    match p {
        ProgressView::Finished(r) => r.output,
        ProgressView::Running(e) => e.output,
        ProgressView::Waiting(e, _) => e.output,
    }
}

/// One step of a running execution that waits for nothing.
pub open spec fn spec_advance(wf: Workflow, e: ExecView, now: u64) -> ProgressView {
    match e.current {
        None => ProgressView::Finished(e.finish("completed"@, None)),
        Some(id) => match find_node(wf.nodes@, id) {
            None => ProgressView::Finished(e.finish("completed"@, None)),
            Some(i) => {
                let node = wf.nodes@[i];
                if e.visited.contains(node.id@) {
                    ProgressView::Finished(
                        e.log(node.id@, "Loop detected, stopping execution"@, now).finish("completed"@, None),
                    )
                } else {
                    visit(wf, ExecView { visited: e.visited.push(node.id@), ..e }, node, now)
                }
            },
        },
    }
}

/// The step that takes the outcome of the outside work that `e` waits for.
pub open spec fn spec_resume(wf: Workflow, e: ExecView, outcome: OutcomeView, now: u64) -> ProgressView {
    let id = match e.waiting {
        Some((w, _)) => w,
        None => seq![],
    };
    let e0 = ExecView { waiting: None, ..e };
    let next = next_target(wf.edges@, id);
    match outcome {
        OutcomeView::Model(Ok(r)) => after_node(
            ExecView { context: e0.context.insert(id, r), output: r, ..e0 }.goto(next),
        ),
        OutcomeView::Model(Err(err)) => ProgressView::Finished(
            e0.log(id, "Ollama error: "@ + err, now).finish("failed"@, None),
        ),
        OutcomeView::Models(rs) => after_node(
            ExecView { logs: e0.logs + swarm_failure_lines(id, rs, now), ..e0 }.goto(next),
        ),
        OutcomeView::Http(HttpOutcomeView::Body(t)) => after_node(
            ExecView { context: e0.context.insert(id, t), output: t, ..e0 }.goto(next),
        ),
        OutcomeView::Http(HttpOutcomeView::ReadFailed(err)) => after_node(
            e0.log(id, "Failed to read response: "@ + err, now).goto(next),
        ),
        OutcomeView::Http(HttpOutcomeView::Status(s)) => after_node(
            e0.log(id, "HTTP error: "@ + s, now).goto(next),
        ),
        OutcomeView::Http(HttpOutcomeView::Failed(err)) => after_node(
            e0.log(id, "HTTP request failed: "@ + err, now).goto(next),
        ),
        OutcomeView::Slept => after_node(e0.goto(next)),
    }
}

// ── The executable steps ──────────────────────────────────

/// The view of an optional text slice.
pub open spec fn opt_str(o: Option<&str>) -> Option<Seq<char>> {
    match o {
        Some(s) => Some(s@),
        None => None,
    }
}

proof fn lemma_logs_push(ls: Seq<ExecutionLog>, l: ExecutionLog)
    ensures
        logs_view(ls.push(l)) == logs_view(ls).push(log_view(l)),
{
    assert(logs_view(ls.push(l)) =~= logs_view(ls).push(log_view(l)));
}

proof fn lemma_views_push(vs: Seq<String>, s: String)
    ensures
        views(vs.push(s)) == views(vs).push(s@),
{
    assert(views(vs.push(s)) =~= views(vs).push(s@));
}

/// The timestamp of a log line written at `now`.
pub fn timestamp_text(now: u64) -> (s: String)
    ensures
        s@ == stamp(now),
{
    let d = decimal_text(now);
    join2(d.as_str(), "Z")
}

fn copy_texts(v: &Vec<String>) -> (r: Vec<String>)
    ensures
        views(r@) == views(v@),
{
    let mut r: Vec<String> = Vec::new();
    let mut i: usize = 0;
    while i < v.len()
        invariant
            0 <= i <= v@.len(),
            views(r@) == views(v@.take(i as int)),
        decreases v@.len() - i,
    {
        proof {
            lemma_views_push(r@, v@[i as int]);
            assert(v@.take(i + 1) =~= v@.take(i as int).push(v@[i as int]));
            lemma_views_push(v@.take(i as int), v@[i as int]);
        }
        r.push(v[i].clone());
        i = i + 1;
    }
    assert(v@.take(v@.len() as int) =~= v@);
    r
}

fn agent_base(cfg: &Vec<ConfigEntry>) -> (s: String)
    ensures
        s@ == agent_base_prompt(cfg@),
{
    let v = match lookup_config(cfg, "systemPrompt") {
        Some(v) => Some(v),
        None => lookup_config(cfg, "prompt"),
    };
    match v {
        Some(ConfigValue::Text(s)) => s.clone(),
        _ => "You are a helpful assistant.".to_owned(),
    }
}

fn build_agent_prompt(base: &str, output: &str) -> (s: String)
    ensures
        s@ == agent_prompt(base@, output@),
{
    if contains_str(base, "{{output}}") {
        proof { reveal_strlit("{{output}}"); }
        replace_text(base, "{{output}}", output)
    } else if !output.is_empty() {
        join3(base, "\n\nContext to process:\n", output)
    } else {
        base.to_owned()
    }
}

fn collect_line_items(output: &str) -> (v: Vec<String>)
    ensures
        views(v@) == line_items(lines(output@)),
{
    let ls = lines_of(output);
    let mut v: Vec<String> = Vec::new();
    let mut i: usize = 0;
    assert(views(ls@).take(0) =~= Seq::<Seq<char>>::empty());
    while i < ls.len()
        invariant
            views(ls@) == lines(output@),
            0 <= i <= ls@.len(),
            views(v@) == line_items(views(ls@).take(i as int)),
        decreases ls@.len() - i,
    {
        let t = trim_text(ls[i].as_str());
        let ghost pre = views(ls@).take(i as int);
        let ghost now_seq = views(ls@).take(i + 1);
        assert(now_seq.drop_last() =~= pre);
        assert(now_seq.last() == ls@[i as int]@);
        if !t.as_str().is_empty() {
            let q = quote_json(t.as_str());
            proof { lemma_views_push(v@, q); }
            v.push(q);
            assert(views(v@) =~= line_items(pre) + seq![json_string_literal(trim(ls@[i as int]@))]);
        } else {
            assert(line_items(pre) + Seq::<Seq<char>>::empty() =~= line_items(pre));
        }
        i = i + 1;
    }
    assert(views(ls@).take(ls@.len() as int) =~= views(ls@));
    v
}

fn collect_swarm_items(cfg: &Vec<ConfigEntry>, ctx: &StrMap<String>, output: &str) -> (v: Vec<String>)
    ensures
        views(v@) == swarm_items(cfg@, ctx_view(*ctx), output@),
{
    match lookup_config(cfg, "items") {
        Some(ConfigValue::List(items)) => copy_texts(items),
        Some(_) => collect_line_items(output),
        None => {
            let key = text_or_default(cfg, "itemsKey", "items");
            let parsed = match ctx.get(key.as_str()) {
                Some(s) => parse_json_array(s.as_str()),
                None => None,
            };
            match parsed {
                Some(items) => items,
                None => collect_line_items(output),
            }
        },
    }
}

fn build_swarm_prompts(sub: &str, items: &Vec<String>) -> (v: Vec<String>)
    ensures
        views(v@) == swarm_prompts(sub@, views(items@)),
{
    proof { reveal_strlit("{{item}}"); }
    let mut v: Vec<String> = Vec::new();
    let mut i: usize = 0;
    while i < items.len()
        invariant
            0 <= i <= items@.len(),
            "{{item}}"@.len() > 0,
            views(v@) == swarm_prompts(sub@, views(items@)).take(i as int),
        decreases items@.len() - i,
    {
        let p = replace_text(sub, "{{item}}", items[i].as_str());
        proof { lemma_views_push(v@, p); }
        v.push(p);
        assert(views(v@) =~= swarm_prompts(sub@, views(items@)).take(i + 1));
        i = i + 1;
    }
    assert(swarm_prompts(sub@, views(items@)).take(items@.len() as int) =~= swarm_prompts(sub@, views(items@)));
    v
}

fn bool_name(b: bool) -> (s: &'static str)
    ensures
        s@ == bool_text(b),
{
    if b { "true" } else { "false" }
}

impl Outcome {
    /// The kind of wait that this outcome answers.
    pub fn kind(&self) -> (k: WaitKind)
        ensures
            k == outcome_kind(outcome_view(*self)),
    {
        match self {
            Outcome::Model(_) => WaitKind::Model,
            Outcome::Models(_) => WaitKind::Models,
            Outcome::Http(_) => WaitKind::Http,
            Outcome::Slept => WaitKind::Sleep,
        }
    }
}

impl Execution {
    fn add_log(&mut self, id: &str, message: String, now: u64)
        ensures
            final(self).view() == old(self).view().log(id@, message@, now),
    {
        let entry = ExecutionLog { node_id: id.to_owned(), message, timestamp: timestamp_text(now) };
        proof { lemma_logs_push(self.logs@, entry); }
        self.logs.push(entry);
    }

    fn finish(self, status: &str, paused: Option<String>) -> (r: ExecutionResult)
        ensures
            result_view(r) == self.view().finish(status@, opt_view(paused)),
    {
        ExecutionResult {
            status: status.to_owned(),
            output: self.output,
            logs: self.logs,
            context: self.context,
            paused_node_id: paused,
        }
    }

    fn after_node(self) -> (p: Progress)
        ensures
            progress_view(p) == after_node(self.view()),
    {
        if self.debug_mode && self.current.is_some() {
            let paused = self.current.clone();
            Progress::Finished(self.finish("paused", paused))
        } else if self.current.is_none() {
            Progress::Finished(self.finish("completed", None))
        } else {
            Progress::Running(self)
        }
    }

    fn wait(self, id: &String, kind: WaitKind, request: Request) -> (p: Progress)
        ensures
            progress_view(p) == ProgressView::Waiting(
                ExecView { waiting: Some((id@, kind)), ..self.view() },
                request_view(request),
            ),
    {
        let mut this = self;
        this.waiting = Some(Waiting { node_id: id.clone(), kind });
        Progress::Waiting(this, request)
    }

    /// The kind of outside work the execution waits for, if any.
    pub fn awaiting(&self) -> (r: Option<WaitKind>)
        ensures
            r == match self.view().waiting {
                Some((_, k)) => Some(k),
                None => None,
            },
    {
        match &self.waiting {
            Some(w) => Some(w.kind),
            None => None,
        }
    }

    /// Starts an execution of `workflow` at `start_node_id`, or else at its
    /// first trigger node, or else at its first node.
    pub fn start(
        workflow: &Workflow,
        ollama_url: Option<&str>,
        initial_context: Option<StrMap<String>>,
        start_node_id: Option<&str>,
        debug_mode: bool,
    ) -> (p: Progress)
        ensures
            progress_view(p) == spec_start(
                *workflow,
                opt_str(ollama_url),
                match initial_context {
                    Some(c) => Some(ctx_view(c)),
                    None => None,
                },
                opt_str(start_node_id),
                debug_mode,
            ),
    {
        let url = match ollama_url {
            Some(u) => u.to_owned(),
            None => "http://localhost:11434".to_owned(),
        };
        let context = match initial_context {
            Some(c) => c,
            None => StrMap::new(),
        };
        proof {
            assert(ctx_view(context) =~= match initial_context {
                Some(c) => ctx_view(c),
                None => Map::<Seq<char>, Seq<char>>::empty(),
            });
        }
        let index = match start_node_id {
            Some(sid) => locate_node(&workflow.nodes, sid),
            None => match locate_first_trigger(&workflow.nodes) {
                Some(i) => Some(i),
                None => if workflow.nodes.len() > 0 { Some(0) } else { None },
            },
        };
        match index {
            None => {
                let r = ExecutionResult {
                    status: "failed".to_owned(),
                    output: "Target node not found".to_owned(),
                    logs: Vec::new(),
                    context,
                    paused_node_id: None,
                };
                assert(logs_view(r.logs@) =~= Seq::<LogLine>::empty());
                Progress::Finished(r)
            },
            Some(i) => {
                let e = Execution {
                    ollama_url: url,
                    debug_mode,
                    output: String::new(),
                    logs: Vec::new(),
                    context,
                    visited: Vec::new(),
                    current: Some(workflow.nodes[i].id.clone()),
                    waiting: None,
                };
                assert(logs_view(e.logs@) =~= Seq::<LogLine>::empty());
                assert(views(e.visited@) =~= Seq::<Seq<char>>::empty());
                Progress::Running(e)
            },
        }
    }

    fn has_visited(&self, id: &str) -> (r: bool)
        ensures
            r == self.view().visited.contains(id@),
    {
        let mut i: usize = 0;
        while i < self.visited.len()
            invariant
                0 <= i <= self.visited@.len(),
                forall|j: int| 0 <= j < i ==> self.visited@[j]@ != id@,
            decreases self.visited@.len() - i,
        {
            if same_text(self.visited[i].as_str(), id) {
                assert(views(self.visited@)[i as int] == id@);
                return true;
            }
            i = i + 1;
        }
        assert(!views(self.visited@).contains(id@)) by {
            if views(self.visited@).contains(id@) {
                let j = choose|j: int| 0 <= j < views(self.visited@).len() && views(self.visited@)[j] == id@;
                assert(self.visited@[j]@ == id@);
            }
        }
        false
    }

    /// Runs the node that the execution stands at, up to the point where it
    /// needs outside work.
    pub fn advance(self, workflow: &Workflow, now: u64) -> (p: Progress)
        requires
            self.view().waiting is None,
        ensures
            progress_view(p) == spec_advance(*workflow, self.view(), now),
            runs_case_transform(*workflow, self.view()) ==> (progress_output(progress_view(p)).len() == 0
                <==> self.view().output.len() == 0),
    {
        let mut this = self;
        let id = match &this.current {
            Some(id) => id.clone(),
            None => return Progress::Finished(this.finish("completed", None)),
        };
        let i = match locate_node(&workflow.nodes, id.as_str()) {
            Some(i) => i,
            None => return Progress::Finished(this.finish("completed", None)),
        };
        let node = &workflow.nodes[i];
        if this.has_visited(node.id.as_str()) {
            this.add_log(node.id.as_str(), "Loop detected, stopping execution".to_owned(), now);
            return Progress::Finished(this.finish("completed", None));
        }
        proof { lemma_views_push(this.visited@, node.id); }
        let mut visited = Vec::new();
        std::mem::swap(&mut visited, &mut this.visited);
        visited.push(node.id.clone());
        this.visited = visited;
        this.visit(workflow, node, now)
    }

    fn visit(self, workflow: &Workflow, node: &WorkflowNode, now: u64) -> (p: Progress)
        ensures
            progress_view(p) == visit(*workflow, self.view(), *node, now),
            is_case_transform(*node) ==> (progress_output(progress_view(p)).len() == 0
                <==> self.view().output.len() == 0),
    {
        let mut this = self;
        let id = &node.id;
        let cfg = get_node_config(node);
        let label = get_node_label(node);
        let t = get_node_type(node);
        let next = first_target(&workflow.edges, id.as_str());
        if same_text(t.as_str(), "trigger") {
            this.add_log(id.as_str(), join2("Trigger executed: ", label.as_str()), now);
            this.current = next;
            this.after_node()
        } else if same_text(t.as_str(), "agent") {
            let model = text_or_default(cfg, "model", "llama3.2");
            let base = agent_base(cfg);
            let prompt = build_agent_prompt(base.as_str(), this.output.as_str());
            let url = this.ollama_url.clone();
            this.add_log(id.as_str(), join4("Agent [", label.as_str(), "] calling ", model.as_str()), now);
            this.wait(id, WaitKind::Model, Request::CallModel { url, model, prompt })
        } else if same_text(t.as_str(), "condition") {
            let expr = text_or_default(cfg, "expression", "true");
            let result = same_text(expr.as_str(), "true") || same_text(expr.as_str(), "1");
            let name = bool_name(result);
            this.add_log(id.as_str(), join4("Condition [", label.as_str(), "] result: ", name), now);
            this.current = target_for_label(&workflow.edges, id.as_str(), name);
            this.after_node()
        } else if same_text(t.as_str(), "approval") {
            this.add_log(id.as_str(), join2("Paused for manual approval: ", label.as_str()), now);
            let paused = Some(id.clone());
            Progress::Finished(this.finish("pending_approval", paused))
        } else if same_text(t.as_str(), "swarm") {
            let model = text_or_default(cfg, "model", "llama3.2");
            let sub = text_or_default(cfg, "subPrompt", "Process this item: {{item}}");
            let items = collect_swarm_items(cfg, &this.context, this.output.as_str());
            let prompts = build_swarm_prompts(sub.as_str(), &items);
            let count = decimal_text(items.len() as u64);
            let msg = join3(join4("Swarm [", label.as_str(), "] spawning ", count.as_str()).as_str(), " parallel agents", "");
            proof { reveal_strlit(""); }
            assert(msg@ =~= "Swarm ["@ + label@ + "] spawning "@ + decimal(items@.len()) + " parallel agents"@);
            let url = this.ollama_url.clone();
            this.add_log(id.as_str(), msg, now);
            this.wait(id, WaitKind::Models, Request::CallModels { url, model, prompts })
        } else if same_text(t.as_str(), "action") {
            let kind = text_or_default(cfg, "actionType", "log");
            this.add_log(id.as_str(), join4("Action [", label.as_str(), "] type: ", kind.as_str()), now);
            this.current = next;
            this.after_node()
        } else if same_text(t.as_str(), "loop") {
            let n = count_or_default(cfg, "iterations", 1);
            let target = text_or_default(cfg, "loopTarget", "start");
            let head = join4("Loop [", label.as_str(), "] iterations: ", decimal_text(n).as_str());
            this.add_log(id.as_str(), join3(head.as_str(), ", target: ", target.as_str()), now);
            let ghost base_logs = this.view().logs;
            let ghost e1 = this.view();
            let mut k: u64 = 0;
            while k < n
                invariant
                    0 <= k <= n,
                    this.view() == (ExecView { logs: base_logs + loop_lines(id@, k as nat, now), ..e1 }),
                decreases n - k,
            {
                let ghost before = this.view();
                this.add_log(id.as_str(), join2("Loop iteration ", decimal_text(k + 1).as_str()), now);
                assert(this.view().logs =~= base_logs + loop_lines(id@, (k + 1) as nat, now));
                assert(this.view() == (ExecView { logs: base_logs + loop_lines(id@, (k + 1) as nat, now), ..e1 }));
                k = k + 1;
            }
            this.current = next;
            this.after_node()
        } else {
            this.visit_rest(workflow, node, now)
        }
    }

    fn visit_rest(self, workflow: &Workflow, node: &WorkflowNode, now: u64) -> (p: Progress)
        requires
            node_type_of(*node) != "trigger"@,
            node_type_of(*node) != "agent"@,
            node_type_of(*node) != "condition"@,
            node_type_of(*node) != "approval"@,
            node_type_of(*node) != "swarm"@,
            node_type_of(*node) != "action"@,
            node_type_of(*node) != "loop"@,
        ensures
            progress_view(p) == visit(*workflow, self.view(), *node, now),
            is_case_transform(*node) ==> (progress_output(progress_view(p)).len() == 0
                <==> self.view().output.len() == 0),
    {
        let mut this = self;
        let id = &node.id;
        let cfg = get_node_config(node);
        let label = get_node_label(node);
        let t = get_node_type(node);
        let next = first_target(&workflow.edges, id.as_str());
        if same_text(t.as_str(), "http") {
            let url = text_or_default(cfg, "url", "");
            let method = text_or_default(cfg, "method", "GET");
            let head = join4("HTTP [", label.as_str(), "] ", method.as_str());
            this.add_log(id.as_str(), join3(head.as_str(), " ", url.as_str()), now);
            if same_text(method.as_str(), "GET") {
                this.wait(id, WaitKind::Http, Request::HttpGet { url })
            } else if same_text(method.as_str(), "POST") {
                let body = text_or_default(cfg, "body", "");
                this.wait(id, WaitKind::Http, Request::HttpPost { url, body })
            } else {
                this.add_log(id.as_str(), join2("Unsupported HTTP method: ", method.as_str()), now);
                this.current = next;
                if this.current.is_none() {
                    Progress::Finished(this.finish("completed", None))
                } else {
                    Progress::Running(this)
                }
            }
        } else if same_text(t.as_str(), "delay") {
            let seconds = count_or_default(cfg, "seconds", 1);
            let head = join4("Delay [", label.as_str(), "] for ", decimal_text(seconds).as_str());
            this.add_log(id.as_str(), join2(head.as_str(), " seconds"), now);
            this.wait(id, WaitKind::Sleep, Request::Sleep { seconds })
        } else if same_text(t.as_str(), "data_transform") {
            let kind = text_or_default(cfg, "transformType", "json_parse");
            let ghost out0 = this.output@;
            this.add_log(id.as_str(), join4("Data Transform [", label.as_str(), "] type: ", kind.as_str()), now);
            if same_text(kind.as_str(), "json_parse") {
                proof {
                    reveal_strlit("json_parse");
                    reveal_strlit("uppercase");
                    reveal_strlit("lowercase");
                }
                match pretty_json(this.output.as_str()) {
                    Some(p) => {
                        this.output = p;
                    },
                    None => {
                        this.add_log(id.as_str(), "Failed to parse JSON".to_owned(), now);
                    },
                }
            } else if same_text(kind.as_str(), "uppercase") {
                this.output = to_upper(this.output.as_str());
            } else if same_text(kind.as_str(), "lowercase") {
                this.output = to_lower(this.output.as_str());
            } else if same_text(kind.as_str(), "trim") {
                this.output = trim_text(this.output.as_str());
            } else {
                this.add_log(id.as_str(), join2("Unknown transform type: ", kind.as_str()), now);
            }
            assert(is_case_transform(*node) ==> (this.output@.len() == 0 <==> out0.len() == 0));
            this.current = next;
            this.after_node()
        } else if same_text(t.as_str(), "end") {
            this.add_log(id.as_str(), "Workflow complete".to_owned(), now);
            this.current = None;
            this.after_node()
        } else {
            this.add_log(id.as_str(), join2("Unknown node type: ", t.as_str()), now);
            this.current = None;
            this.after_node()
        }
    }

    /// Takes the outcome of the outside work that the execution waits for,
    /// and finishes the node.
    pub fn resume(self, workflow: &Workflow, outcome: Outcome, now: u64) -> (p: Progress)
        requires
            self.view().waiting matches Some((_, k)) && k == outcome_kind(outcome_view(outcome)),
        ensures
            progress_view(p) == spec_resume(*workflow, self.view(), outcome_view(outcome), now),
    {
        let mut this = self;
        let id = match &this.waiting {
            Some(w) => w.node_id.clone(),
            None => String::new(),
        };
        this.waiting = None;
        let next = first_target(&workflow.edges, id.as_str());
        match outcome {
            Outcome::Model(Ok(r)) => {
                this.context.insert(id, r.clone());
                this.output = r;
                this.current = next;
                proof { assert(ctx_view(this.context) =~= ctx_view(self.context).insert(id@, r@)); }
                this.after_node()
            },
            Outcome::Model(Err(err)) => {
                this.add_log(id.as_str(), join2("Ollama error: ", err.as_str()), now);
                Progress::Finished(this.finish("failed", None))
            },
            Outcome::Models(rs) => {
                let ghost e0 = this.view();
                let ghost rv = rs@.map_values(|r: Result<String, String>| reply_view(r));
                let mut i: usize = 0;
                while i < rs.len()
                    invariant
                        0 <= i <= rs@.len(),
                        rv == rs@.map_values(|r: Result<String, String>| reply_view(r)),
                        this.view() == (ExecView { logs: e0.logs + swarm_failure_lines(id@, rv.take(i as int), now), ..e0 }),
                    decreases rs@.len() - i,
                {
                    let ghost before = this.view();
                    assert(rv.take(i + 1).drop_last() =~= rv.take(i as int));
                    match &rs[i] {
                        Ok(_) => {
                            assert(this.view().logs =~= e0.logs + swarm_failure_lines(id@, rv.take(i + 1), now));
                        },
                        Err(e) => {
                            let msg = join4("Swarm sub-agent ", decimal_text(i as u64).as_str(), " failed: ", e.as_str());
                            this.add_log(id.as_str(), msg, now);
                            assert(this.view().logs =~= e0.logs + swarm_failure_lines(id@, rv.take(i + 1), now));
                        },
                    }
                    i = i + 1;
                }
                assert(rv.take(rs@.len() as int) =~= rv);
                this.current = next;
                this.after_node()
            },
            Outcome::Http(HttpOutcome::Body(t)) => {
                this.context.insert(id, t.clone());
                this.output = t;
                this.current = next;
                proof { assert(ctx_view(this.context) =~= ctx_view(self.context).insert(id@, t@)); }
                this.after_node()
            },
            Outcome::Http(HttpOutcome::ReadFailed(err)) => {
                this.add_log(id.as_str(), join2("Failed to read response: ", err.as_str()), now);
                this.current = next;
                this.after_node()
            },
            Outcome::Http(HttpOutcome::Status(st)) => {
                this.add_log(id.as_str(), join2("HTTP error: ", st.as_str()), now);
                this.current = next;
                this.after_node()
            },
            Outcome::Http(HttpOutcome::Failed(err)) => {
                this.add_log(id.as_str(), join2("HTTP request failed: ", err.as_str()), now);
                this.current = next;
                this.after_node()
            },
            Outcome::Slept => {
                this.current = next;
                this.after_node()
            },
        }
    }
}

} // verus!
