//! Incoming webhooks: what they match and what is logged of them.
use vstd::prelude::*;
use crate::engine::model::opt_view;
use crate::text::{contains_str, contains_text, join3};
use crate::json::{json_str_field, opt_text, read_str_field};

verus! {

/// The log entry of a received webhook.
pub struct WebhookLogEntry {
    pub id: String,
    pub path: String,
    pub method: String,
    pub payload: Option<String>,
    pub workflow_id: Option<String>,
    pub status: Option<String>,
    pub response: Option<String>,
    pub created_at: Option<String>,
}

/// Whether a webhook path carries an interactive payload from Slack.
pub fn is_slack_interactive(path: &str) -> (r: bool)
    ensures
        r == contains_text(path@, "slack/interactive"@),
{
    contains_str(path, "slack/interactive")
}

/// The run that an interactive Slack payload acts on. The body must be JSON;
/// when its `payload` field is a string that is JSON too, that inner value
/// is read instead of the body; the run is the string in its `callback_id`.
pub open spec fn slack_callback_of(body: Seq<char>) -> Option<Seq<char>> {
    match json_str_field(body, "payload"@) {
        None => None,
        Some(inner) => {
            let from_inner = match inner {
                Some(t) => json_str_field(t, "callback_id"@),
                None => None,
            };
            match from_inner {
                Some(f) => f,
                None => match json_str_field(body, "callback_id"@) {
                    Some(f) => f,
                    None => None,
                },
            }
        },
    }
}

/// The run that an interactive Slack payload acts on (see `slack_callback_of`).
pub fn slack_callback_run(payload: &str) -> (r: Option<String>)
    ensures
        opt_text(r) == slack_callback_of(payload@),
{
    match read_str_field(payload, "payload") {
        None => None,
        Some(inner) => {
            let from_inner = match &inner {
                Some(t) => read_str_field(t.as_str(), "callback_id"),
                None => None,
            };
            match from_inner {
                Some(f) => f,
                None => match read_str_field(payload, "callback_id") {
                    Some(f) => f,
                    None => None,
                },
            }
        },
    }
}

/// The pattern that finds the workflows whose nodes mention `path`.
pub fn workflow_match_pattern(path: &str) -> (r: String)
    ensures
        r@ == "%"@ + path@ + "%"@,
{
    join3("%", path, "%")
}

/// The status of a webhook: whether it triggered a workflow.
pub fn webhook_status(matched: usize) -> (r: &'static str)
    ensures
        r@ == if matched == 0 { "no_match"@ } else { "triggered"@ },
{
    if matched == 0 { "no_match" } else { "triggered" }
}

/// The log entry of a POST to `path` with `payload`, matched by the
/// workflows `matched`: it names the first of them (or none, as an empty id).
pub fn webhook_log_entry(id: String, path: &str, payload: String, matched: &Vec<String>, now: String) -> (e: WebhookLogEntry)
    ensures
        e.id@ == id@ && e.path@ == path@ && e.method@ == "POST"@,
        opt_view(e.payload) == Some(payload@),
        opt_view(e.workflow_id) == Some(if matched@.len() > 0 { matched@[0]@ } else { Seq::<char>::empty() }),
        opt_view(e.status) == Some(if matched@.len() == 0 { "no_match"@ } else { "triggered"@ }),
        e.response is None,
        opt_view(e.created_at) == Some(now@),
{
    let first = if matched.len() > 0 { matched[0].clone() } else { String::new() };
    WebhookLogEntry {
        id,
        path: path.to_owned(),
        method: "POST".to_owned(),
        payload: Some(payload),
        workflow_id: Some(first),
        status: Some(webhook_status(matched.len()).to_owned()),
        response: None,
        created_at: Some(now),
    }
}

} // verus!
