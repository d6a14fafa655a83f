use mermaduckle::engine::model::WorkflowEdge;
use mermaduckle::sdk::{run_outcome, Client, WorkflowRunResponse, WorkflowRunResult};
use mermaduckle::server::audit::{audit_event_id, seed_audit_event, seed_team, system_actor};
use mermaduckle::server::auth::{
    bearer_token, effective_role, new_account_role, normalize_email, validate_registration,
    RegisterRequest, RegistrationError,
};
use mermaduckle::server::health::{health_status, ollama_state, OllamaProbe};
use mermaduckle::server::ids::{compact_id, millis_id, short_id, user_id};
use mermaduckle::server::keys::{check_password, hash_key, hash_password, matching_key, stored_key_hash, PasswordCheck};
use mermaduckle::server::prompts::{chat_prompt, heal_target, strip_code_fence, ChatRequest};
use mermaduckle::server::transfer::{imported_agent, imported_workflow, latest_log, single_import};
use mermaduckle::server::runs::{
    is_rejection, resume_node, run_record_update, run_severity, run_succeeded, scheduled_run_update,
    update_workflow_sql, ApprovalActionRequest, UpdateWorkflowRequest,
};
use mermaduckle::server::settings::{
    default_notification_settings, integration_connected_at, new_team_member, notification_changes,
    CreateTeamMemberRequest, NotificationChange, UpdateNotificationsRequest,
};
use mermaduckle::server::site::{page_for_path, static_dir_candidate_paths, static_dir_for, Page};
use mermaduckle::server::webhook::{is_slack_interactive, slack_callback_run, webhook_log_entry, workflow_match_pattern};
use argon2::PasswordVerifier;

#[test]
fn test_hash_key_verify() {
    let raw = "test_secret_key_123";
    let hashed = hash_key(raw);
    let parsed = argon2::password_hash::PasswordHash::new(&hashed).unwrap();
    assert!(argon2::Argon2::default().verify_password(raw.as_bytes(), &parsed).is_ok());
}

#[test]
fn keys_are_checked_against_hashes() {
    let h1 = hash_key("first");
    let h2 = hash_key("second");
    let hashes = vec!["not a hash".to_string(), h1.clone(), h2.clone()];
    assert_eq!(matching_key("second", &hashes), Some(2));
    assert_eq!(matching_key("third", &hashes), None);
    assert_eq!(check_password("first", &h1), PasswordCheck::Accepted);
    assert_eq!(check_password("second", &h1), PasswordCheck::Rejected);
    assert_eq!(check_password("first", "plain"), PasswordCheck::AccountError);
    assert_eq!(stored_key_hash("k", None), "k");
}

#[test]
fn a_stored_key_is_found_at_its_first_hash() {
    let h = hash_key("shared");
    let hashes = vec![hash_key("other"), h.clone(), h.clone()];
    assert_eq!(matching_key("shared", &hashes), Some(1));
    let p = hash_password("secret password").unwrap();
    assert_ne!(p, "secret password");
    assert_eq!(check_password("secret password", &p), PasswordCheck::Accepted);
}

#[test]
fn static_dir_is_the_first_that_exists() {
    assert_eq!(static_dir_for(&vec![true, true, true]), "crates/server/static");
    assert_eq!(static_dir_for(&vec![false, false, true]), "../static");
    assert_eq!(static_dir_for(&vec![false, true, true]), "static");
    assert_eq!(static_dir_for(&vec![false, false, false]), "static");
    assert_eq!(static_dir_candidate_paths(), vec!["crates/server/static", "static", "../static"]);
}

#[test]
fn key_hashes_are_argon2id() {
    let h = hash_key("some key");
    assert!(h.starts_with("$argon2id$"));
    assert!(hash_password("pw").unwrap().starts_with("$argon2id$"));
}

#[test]
fn registration_is_validated() {
    let ok = validate_registration(&RegisterRequest {
        name: "  Ada ".into(),
        email: " Ada@Example.COM ".into(),
        password: "secret".into(),
    })
    .ok()
    .unwrap();
    assert_eq!(ok.name, "Ada");
    assert_eq!(ok.email, "ada@example.com");
    let short = validate_registration(&RegisterRequest { name: "A".into(), email: "a@b".into(), password: "12345".into() });
    assert!(matches!(short, Err(RegistrationError::MissingFields)));
    let blank = validate_registration(&RegisterRequest { name: "  ".into(), email: "a@b".into(), password: "123456".into() });
    assert!(blank.is_err());
    assert_eq!(normalize_email(" X@Y "), "x@y");
}

#[test]
fn roles_and_tokens() {
    assert_eq!(new_account_role(0, false), "admin");
    assert_eq!(new_account_role(3, false), "user");
    assert_eq!(new_account_role(3, true), "admin");
    assert_eq!(effective_role("user", true), "admin");
    assert_eq!(effective_role("user", false), "user");
    assert_eq!(bearer_token("Bearer abc").as_deref(), Some("abc"));
    assert_eq!(bearer_token("Basic abc"), None);
}

#[test]
fn identifiers() {
    let u = "1b4e28ba-2fa1-11d2-883f-0016d3cca427";
    assert_eq!(short_id("wf_", u), "wf_1b4e28ba");
    assert_eq!(compact_id("ses_", u), "ses_1b4e28ba2fa111d2883f0016d3cca427");
    assert_eq!(user_id(u), "usr_1b4e28ba2fa1");
    assert_eq!(millis_id("run_", 1712345678901), "run_1712345678901");
    assert_eq!(audit_event_id(5), "evt_5");
}

#[test]
fn run_records() {
    let done = run_record_update("completed", "out", "T");
    assert_eq!(done.completed_at.as_deref(), Some("T"));
    assert_eq!(done.error, None);
    let failed = run_record_update("failed", "boom", "T");
    assert_eq!(failed.error.as_deref(), Some("boom"));
    let paused = run_record_update("paused", "x", "T");
    assert_eq!(paused.completed_at, None);
    let sched = scheduled_run_update("pending_approval", "x", "T");
    assert_eq!(sched.completed_at.as_deref(), Some("T"));
    assert_eq!(run_severity("failed"), "high");
    assert_eq!(run_severity("completed"), "low");
    assert!(run_succeeded("pending_approval"));
    assert!(!run_succeeded("paused"));
    assert!(is_rejection(&ApprovalActionRequest { action: "reject".into() }));
    assert!(!is_rejection(&ApprovalActionRequest { action: "approve".into() }));
}

#[test]
fn approval_resumes_after_paused_node() {
    let edges = vec![
        WorkflowEdge { id: "a".into(), source: "x".into(), target: "y".into(), label: None, animated: None },
        WorkflowEdge { id: "b".into(), source: "gate".into(), target: "next".into(), label: None, animated: None },
        WorkflowEdge { id: "c".into(), source: "gate".into(), target: "other".into(), label: None, animated: None },
    ];
    assert_eq!(resume_node(&edges, "gate").as_deref(), Some("next"));
    assert_eq!(resume_node(&edges, "end"), None);
}

#[test]
fn workflow_update_statement() {
    let none = UpdateWorkflowRequest { name: None, description: None, status: None, nodes: None, edges: None, schedule: None };
    assert_eq!(update_workflow_sql(&none), "UPDATE workflows SET updated_at = $1 WHERE id = $2");
    let some = UpdateWorkflowRequest {
        name: Some("n".into()),
        description: None,
        status: Some("active".into()),
        nodes: None,
        edges: Some("[]".into()),
        schedule: None,
    };
    assert_eq!(
        update_workflow_sql(&some),
        "UPDATE workflows SET updated_at = $1, name = $2, status = $3, edges = $4 WHERE id = $5"
    );
}

#[test]
fn prompts_and_fences() {
    let p = chat_prompt("Be brief.", &ChatRequest { message: "Hi".into() });
    assert_eq!(p, "Be brief.\n\nUser: Hi\nAgent:");
    assert_eq!(strip_code_fence("```json\n{\"a\":1}\n```"), "{\"a\":1}");
    assert_eq!(strip_code_fence("  plain  "), "plain");
}

#[test]
fn settings_decisions() {
    let m = new_team_member("usr_9".into(), &CreateTeamMemberRequest { name: "N".into(), email: "e".into(), role: None }, "now".into());
    assert_eq!(m.role, "viewer");
    assert_eq!(m.status, "active");
    let d = default_notification_settings();
    assert_eq!((d.id.as_str(), d.email_alerts, d.digest_frequency.as_str(), d.alert_severity.as_str()), ("default", 1, "daily", "medium"));
    assert_eq!(integration_connected_at("connected", "T").as_deref(), Some("T"));
    assert_eq!(integration_connected_at("disconnected", "T"), None);
    let changes = notification_changes(&UpdateNotificationsRequest {
        email_alerts: Some(0),
        slack_webhook: None,
        digest_frequency: Some("weekly".into()),
        alert_severity: None,
    });
    assert_eq!(changes.len(), 2);
    assert!(matches!(changes[0], NotificationChange::EmailAlerts(0)));
    assert!(matches!(&changes[1], NotificationChange::DigestFrequency(f) if f == "weekly"));
}

#[test]
fn webhooks_and_pages() {
    assert!(is_slack_interactive("hooks/slack/interactive"));
    assert!(!is_slack_interactive("hooks/github"));
    assert_eq!(workflow_match_pattern("orders"), "%orders%");
    let e = webhook_log_entry("wh_1".into(), "p", "{}".into(), &vec![], "T".into());
    assert_eq!(e.status.as_deref(), Some("no_match"));
    assert_eq!(e.workflow_id.as_deref(), Some(""));
    let e = webhook_log_entry("wh_2".into(), "p", "{}".into(), &vec!["wf_1".into(), "wf_2".into()], "T".into());
    assert_eq!(e.status.as_deref(), Some("triggered"));
    assert_eq!(e.workflow_id.as_deref(), Some("wf_1"));
    assert_eq!(page_for_path("/app/settings"), Page::App);
    assert_eq!(page_for_path("/docs"), Page::Docs);
    assert_eq!(page_for_path("/"), Page::Marketing);
}

#[test]
fn health_report() {
    let ok = health_status("ok".into(), ollama_state(OllamaProbe::Healthy), false);
    assert_eq!(ok.status, "ok");
    assert_eq!(ok.version, "0.1.0");
    let bad = health_status("ok".into(), ollama_state(OllamaProbe::Unreachable("refused".into())), false);
    assert_eq!(bad.status, "degraded");
    assert_eq!(bad.services.ollama, "unreachable: refused");
}

#[test]
fn seed_data() {
    let team = seed_team("T");
    assert_eq!(team.len(), 4);
    assert_eq!(team[2].name, "Arjunn Patel");
    let e15 = seed_audit_event(15);
    assert_eq!(e15.severity, "high");
    assert_eq!(e15.event_type, "policy_violation");
    assert_eq!(e15.actor.name, "System Daemon");
    assert_eq!(e15.target.id, "wf_6");
    assert_eq!(e15.hours_ago, 45);
    assert!(e15.metadata.contains("429"));
    let e10 = seed_audit_event(10);
    assert_eq!(e10.severity, "medium");
    assert_eq!(e10.id, "evt_10");
    assert_eq!(system_actor().email, "system@mermaduckle.io");
}

#[test]
fn sdk_addresses_and_outcomes() {
    let c = Client::new("http://localhost:3000//");
    assert_eq!(c.url(), "http://localhost:3000");
    assert_eq!(c.run_url("wf_1"), "http://localhost:3000/api/workflows/wf_1/run");
    assert_eq!(c.agents_url(), "http://localhost:3000/api/agents");
    let ok = run_outcome(WorkflowRunResponse {
        success: true,
        result: Some(WorkflowRunResult { run_id: "r".into(), status: "completed".into(), output: "o".into(), logs: vec![] }),
        error: None,
    });
    assert_eq!(ok.ok().unwrap().run_id, "r");
    let missing = run_outcome(WorkflowRunResponse { success: true, result: None, error: None });
    assert_eq!(missing.err().unwrap(), "Missing result");
    let failed = run_outcome(WorkflowRunResponse { success: false, result: None, error: None });
    assert_eq!(failed.err().unwrap(), "Unknown error");
}

#[test]
fn heal_target_reads_the_stored_nodes() {
    let nodes = r#"[{"id":"a","type":"agent","config":{"model":"m"}},{"id":"b"},{"id":"b","type":"x"}]"#;
    assert_eq!(heal_target(nodes, "a"), Some(("\"agent\"".to_string(), "{\"model\":\"m\"}".to_string())));
    assert_eq!(heal_target(nodes, "b"), Some(("\"unknown\"".to_string(), "\"{}\"".to_string())));
    assert_eq!(heal_target(nodes, "c"), None);
    assert_eq!(heal_target("not json", "a"), None);
}

#[test]
fn slack_callbacks_name_the_run() {
    assert_eq!(slack_callback_run(r#"{"callback_id":"run_1"}"#), Some("run_1".to_string()));
    assert_eq!(slack_callback_run(r#"{"payload":"{\"callback_id\":\"run_2\"}","callback_id":"run_1"}"#), Some("run_2".to_string()));
    assert_eq!(slack_callback_run(r#"{"payload":"{}","callback_id":"run_1"}"#), None);
    assert_eq!(slack_callback_run(r#"{"payload":"not json","callback_id":"run_1"}"#), Some("run_1".to_string()));
    assert_eq!(slack_callback_run("payload=x"), None);
}

#[test]
fn imports_take_fields_with_defaults() {
    let w = imported_workflow(r#"{"id":"wf_9","description":"d","nodes":[1]}"#);
    assert_eq!((w.id.as_str(), w.name.as_str(), w.description.as_deref()), ("wf_9", "Imported", Some("d")));
    assert_eq!((w.nodes.as_str(), w.edges.as_str()), ("[1]", "[]"));
    let s = single_import("wf_1".to_string(), "{}");
    assert_eq!((s.id.as_str(), s.name.as_str()), ("wf_1", "Imported Workflow"));
    let a = imported_agent(r#"{"name":"A","model":"m"}"#);
    assert_eq!((a.id.as_str(), a.name.as_str(), a.model.as_deref(), a.description), ("imported", "A", Some("m"), None));
    assert_eq!(latest_log(r#"[{"a":1},{"b":2}]"#), Some("{\"b\":2}".to_string()));
    assert_eq!(latest_log("[]"), None);
}
