use mermaduckle::clock::now_secs;
use mermaduckle::engine::model::{ConfigEntry, ConfigValue, NodeData, Workflow, WorkflowEdge, WorkflowNode};
use mermaduckle::engine::ollama::{generate_url, ollama_outcome, OllamaReply};
use mermaduckle::engine::run::{Execution, ExecutionResult, HttpOutcome, Outcome, Progress, Request};
use mermaduckle::strmap::StrMap;

fn node(id: &str, node_type: &str, config: Vec<ConfigEntry>) -> WorkflowNode {
    WorkflowNode { id: id.into(), node_type: node_type.into(), config, data: None }
}

fn edge(id: &str, source: &str, target: &str) -> WorkflowEdge {
    WorkflowEdge { id: id.into(), source: source.into(), target: target.into(), label: None, animated: None }
}

fn entry(key: &str, value: ConfigValue) -> ConfigEntry {
    ConfigEntry { key: key.into(), value }
}

/// Runs an execution to its end; model calls fail, HTTP requests answer
/// with `http_body`, pauses really wait.
fn drive(mut p: Progress, workflow: &Workflow, http_body: &str) -> (ExecutionResult, Vec<String>) {
    let mut asked = Vec::new();
    loop {
        p = match p {
            Progress::Finished(r) => return (r, asked),
            Progress::Running(e) => e.advance(workflow, now_secs()),
            Progress::Waiting(e, request) => {
                let outcome = match request {
                    Request::CallModel { prompt, .. } => {
                        asked.push(prompt);
                        Outcome::Model(Err("offline".into()))
                    }
                    Request::CallModels { prompts, .. } => {
                        let n = prompts.len();
                        asked.extend(prompts);
                        Outcome::Models((0..n).map(|i| if i % 2 == 0 { Ok("ok".into()) } else { Err("down".into()) }).collect())
                    }
                    Request::HttpGet { url } | Request::HttpPost { url, .. } => {
                        asked.push(url);
                        Outcome::Http(HttpOutcome::Body(http_body.into()))
                    }
                    Request::Sleep { seconds } => {
                        let rt = tokio::runtime::Runtime::new().unwrap();
                        rt.block_on(async move { tokio::time::sleep(std::time::Duration::from_secs(seconds)).await });
                        Outcome::Slept
                    }
                };
                e.resume(workflow, outcome, now_secs())
            }
        };
    }
}

fn execute(workflow: &Workflow, debug: bool) -> ExecutionResult {
    drive(Execution::start(workflow, None, None, None, debug), workflow, "").0
}

fn line_workflow(middle: WorkflowNode) -> Workflow {
    let id = middle.id.clone();
    Workflow {
        nodes: vec![node("start", "trigger", vec![]), middle, node("end", "end", vec![])],
        edges: vec![edge("e1", "start", &id), edge("e2", &id, "end")],
    }
}

#[test]
fn test_empty_workflow() {
    let workflow = Workflow { nodes: vec![], edges: vec![] };
    let result = execute(&workflow, false);
    assert_eq!(result.status, "failed");
    assert_eq!(result.output, "Target node not found");
}

#[test]
fn test_trigger_to_end() {
    let workflow = Workflow {
        nodes: vec![node("t1", "trigger", vec![]), node("e1", "end", vec![])],
        edges: vec![edge("edge1", "t1", "e1")],
    };
    let result = execute(&workflow, false);
    assert_eq!(result.status, "completed");
}

#[test]
fn test_loop_node() {
    let workflow = line_workflow(node("loop", "loop", vec![entry("iterations", ConfigValue::Count(3))]));
    let result = execute(&workflow, false);
    assert_eq!(result.status, "completed");
    assert!(result.logs.iter().any(|l| l.message.contains("Loop iteration")));
}

#[test]
fn test_delay_node() {
    let start = std::time::Instant::now();
    let workflow = line_workflow(node("delay", "delay", vec![entry("seconds", ConfigValue::Count(1))]));
    let result = execute(&workflow, false);
    let elapsed = start.elapsed();
    assert_eq!(result.status, "completed");
    assert!(elapsed >= std::time::Duration::from_secs(1));
    assert!(result.logs.iter().any(|l| l.message.contains("Delay")));
}

#[test]
fn test_data_transform_node() {
    let workflow = line_workflow(node(
        "transform",
        "data_transform",
        vec![entry("transformType", ConfigValue::Text("uppercase".into()))],
    ));
    let result = execute(&workflow, false);
    assert_eq!(result.status, "completed");
    assert!(result.logs.iter().any(|l| l.message.contains("Data Transform")));
}

#[test]
fn loop_node_logs_each_iteration() {
    let workflow = line_workflow(node("loop", "loop", vec![entry("iterations", ConfigValue::Count(3))]));
    let result = execute(&workflow, false);
    let messages: Vec<&str> = result.logs.iter().map(|l| l.message.as_str()).collect();
    assert_eq!(
        messages,
        vec![
            "Trigger executed: start",
            "Loop [loop] iterations: 3, target: start",
            "Loop iteration 1",
            "Loop iteration 2",
            "Loop iteration 3",
            "Workflow complete",
        ]
    );
    assert!(result.logs.iter().all(|l| l.timestamp.ends_with('Z')));
}

#[test]
fn approval_pauses_at_its_node() {
    let workflow = line_workflow(node("gate", "approval", vec![]));
    let result = execute(&workflow, false);
    assert_eq!(result.status, "pending_approval");
    assert_eq!(result.paused_node_id.as_deref(), Some("gate"));
    assert_eq!(result.logs.last().unwrap().message, "Paused for manual approval: gate");
}

#[test]
fn debug_mode_pauses_at_next_node() {
    let workflow = line_workflow(node("act", "action", vec![]));
    let result = execute(&workflow, true);
    assert_eq!(result.status, "paused");
    assert_eq!(result.paused_node_id.as_deref(), Some("act"));
    assert_eq!(result.logs.len(), 1);
}

#[test]
fn resume_from_a_node_with_context() {
    let workflow = line_workflow(node("act", "action", vec![entry("actionType", ConfigValue::Text("email".into()))]));
    let mut ctx = StrMap::new();
    ctx.insert("start".to_string(), "earlier".to_string());
    let p = Execution::start(&workflow, Some("http://x"), Some(ctx), Some("act"), false);
    let (result, _) = drive(p, &workflow, "");
    assert_eq!(result.status, "completed");
    assert_eq!(result.logs[0].message, "Action [act] type: email");
    assert_eq!(result.context.get("start").map(|s| s.as_str()), Some("earlier"));
}

#[test]
fn cycle_is_detected() {
    let workflow = Workflow {
        nodes: vec![node("a", "trigger", vec![]), node("b", "action", vec![])],
        edges: vec![edge("e1", "a", "b"), edge("e2", "b", "a")],
    };
    let result = execute(&workflow, false);
    assert_eq!(result.status, "completed");
    assert_eq!(result.logs.last().unwrap().message, "Loop detected, stopping execution");
    assert_eq!(result.logs.len(), 3);
}

#[test]
fn condition_follows_labelled_edge() {
    let mut yes = edge("y", "c", "yes");
    yes.label = Some("TRUE".into());
    let mut no = edge("n", "c", "no");
    no.label = Some("false".into());
    let workflow = Workflow {
        nodes: vec![
            node("c", "condition", vec![entry("expression", ConfigValue::Text("0".into()))]),
            node("yes", "end", vec![]),
            node("no", "action", vec![]),
        ],
        edges: vec![yes, no],
    };
    let result = execute(&workflow, false);
    assert_eq!(result.logs[0].message, "Condition [c] result: false");
    assert_eq!(result.logs[1].message, "Action [no] type: log");
}

#[test]
fn agent_failure_fails_the_run() {
    let workflow = line_workflow(node(
        "ag",
        "agent",
        vec![entry("systemPrompt", ConfigValue::Text("Summarize {{output}} now".into()))],
    ));
    let (result, asked) = drive(Execution::start(&workflow, None, None, None, false), &workflow, "");
    assert_eq!(result.status, "failed");
    assert_eq!(result.logs.last().unwrap().message, "Ollama error: offline");
    assert_eq!(asked, vec!["Summarize  now".to_string()]);
}

#[test]
fn http_body_becomes_output_and_context() {
    let workflow = line_workflow(node(
        "h",
        "http",
        vec![entry("url", ConfigValue::Text("http://example.test".into()))],
    ));
    let (result, asked) = drive(Execution::start(&workflow, None, None, None, false), &workflow, "  body  ");
    assert_eq!(result.status, "completed");
    assert_eq!(result.output, "  body  ");
    assert_eq!(result.context.get("h").map(|s| s.as_str()), Some("  body  "));
    assert_eq!(asked, vec!["http://example.test".to_string()]);
    assert_eq!(result.logs[1].message, "HTTP [h] GET http://example.test");
}

#[test]
fn swarm_uses_output_lines_and_logs_failures() {
    let workflow = Workflow {
        nodes: vec![
            node("h", "http", vec![entry("url", ConfigValue::Text("u".into()))]),
            node("s", "swarm", vec![entry("subPrompt", ConfigValue::Text("Do {{item}}!".into()))]),
        ],
        edges: vec![edge("e", "h", "s")],
    };
    let p = Execution::start(&workflow, None, None, Some("h"), false);
    let (result, asked) = drive(p, &workflow, "alpha\n\n  beta \r\n");
    assert_eq!(asked, vec!["u".to_string(), "Do \"alpha\"!".to_string(), "Do \"beta\"!".to_string()]);
    assert_eq!(result.logs[1].message, "Swarm [s] spawning 2 parallel agents");
    assert_eq!(result.logs[2].message, "Swarm sub-agent 1 failed: down");
    assert_eq!(result.status, "completed");
}

#[test]
fn swarm_items_are_quoted_as_json_strings() {
    let workflow = Workflow {
        nodes: vec![
            node("h", "http", vec![entry("url", ConfigValue::Text("u".into()))]),
            node("s", "swarm", vec![entry("subPrompt", ConfigValue::Text("{{item}}".into()))]),
        ],
        edges: vec![edge("e", "h", "s")],
    };
    let p = Execution::start(&workflow, None, None, Some("h"), false);
    let (_, asked) = drive(p, &workflow, "say \"hi\"\\x\u{1}\té");
    assert_eq!(asked[1], "\"say \\\"hi\\\"\\\\x\\u0001\\té\"");
}

#[test]
fn data_transform_trims_and_parses() {
    let mut data = NodeData { label: Some("Clean".into()), node_type: Some("data_transform".into()), description: None, icon: None, config: None };
    data.config = Some(vec![entry("transformType", ConfigValue::Text("trim".into()))]);
    let workflow = Workflow {
        nodes: vec![
            node("h", "http", vec![entry("url", ConfigValue::Text("u".into()))]),
            WorkflowNode { id: "t".into(), node_type: "agentNode".into(), config: vec![], data: Some(data) },
            node("p", "data_transform", vec![]),
        ],
        edges: vec![edge("e1", "h", "t"), edge("e2", "t", "p")],
    };
    let (result, _) = drive(Execution::start(&workflow, None, None, Some("h"), false), &workflow, " {\"a\": 1} ");
    assert_eq!(result.logs[1].message, "Data Transform [Clean] type: trim");
    assert_eq!(result.output, "{\n  \"a\": 1\n}");
}

#[test]
fn unknown_node_type_ends_the_run() {
    let workflow = line_workflow(node("x", "mystery", vec![]));
    let result = execute(&workflow, false);
    assert_eq!(result.status, "completed");
    assert_eq!(result.logs.last().unwrap().message, "Unknown node type: mystery");
}

#[test]
fn ollama_outcomes() {
    assert_eq!(generate_url("http://h:1"), "http://h:1/api/generate");
    assert_eq!(
        ollama_outcome("m", OllamaReply::Unreachable).unwrap(),
        "[Simulated m output]: Action completed successfully based on prompt context."
    );
    assert_eq!(
        ollama_outcome("m", OllamaReply::BadStatus).unwrap(),
        "[Simulated m output]: Detected missing model or API error."
    );
    assert_eq!(
        ollama_outcome("m", OllamaReply::Unparsable("bad".into())).unwrap_err(),
        "Failed to parse Ollama response: bad"
    );
    assert_eq!(ollama_outcome("m", OllamaReply::Generated(Some("hi".into()))).unwrap(), "hi");
    assert_eq!(
        ollama_outcome("m", OllamaReply::Generated(None)).unwrap(),
        "[Simulated fallback] Empty block from model."
    );
}

#[test]
fn case_transforms_keep_an_empty_output_empty() {
    for kind in ["uppercase", "lowercase"] {
        let workflow = line_workflow(node("transform", "data_transform", vec![entry("transformType", ConfigValue::Text(kind.into()))]));
        let result = execute(&workflow, false);
        assert_eq!(result.status, "completed");
        assert_eq!(result.output, "");
    }
}
