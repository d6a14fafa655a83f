//! The client of the REST API: its addresses, and what a run answer means.
use vstd::prelude::*;
use crate::text::{join2, join3, trim_end_matches, trim_end_matches_text};

verus! {

/// A client of a server at a base address.
pub struct Client {
    url: String,
}

/// The result of a workflow run as the server reports it; logs as JSON text.
pub struct WorkflowRunResult {
    pub run_id: String,
    pub status: String,
    pub output: String,
    pub logs: Vec<String>,
}

/// The server's answer to a run request.
pub struct WorkflowRunResponse {
    pub success: bool,
    pub result: Option<WorkflowRunResult>,
    pub error: Option<String>,
}

impl Client {
    /// The base address, without trailing slashes.
    pub closed spec fn base(&self) -> Seq<char> {
        self.url@
    }

    /// A client of the server at `url`; trailing slashes are dropped.
    pub fn new(url: &str) -> (c: Client)
        ensures
            c.base() == trim_end_matches(url@, "/"@),
    {
        proof { reveal_strlit("/"); }
        Client { url: trim_end_matches_text(url, "/") }
    }

    /// The base address.
    pub fn url(&self) -> (u: &str)
        ensures
            u@ == self.base(),
    {
        self.url.as_str()
    }

    /// The address of the list of workflows.
    pub fn workflows_url(&self) -> (u: String)
        ensures
            u@ == self.base() + "/api/workflows"@,
    {
        join2(self.url.as_str(), "/api/workflows")
    }

    /// The address of one workflow.
    pub fn workflow_url(&self, id: &str) -> (u: String)
        ensures
            u@ == self.base() + "/api/workflows/"@ + id@,
    {
        join3(self.url.as_str(), "/api/workflows/", id)
    }

    /// The address that runs a workflow.
    pub fn run_url(&self, id: &str) -> (u: String)
        ensures
            u@ == self.base() + "/api/workflows/"@ + id@ + "/run"@,
    {
        let w = self.workflow_url(id);
        join2(w.as_str(), "/run")
    }

    /// The address of the list of agents.
    pub fn agents_url(&self) -> (u: String)
        ensures
            u@ == self.base() + "/api/agents"@,
    {
        join2(self.url.as_str(), "/api/agents")
    }
}

/// What a run answer means: its result when the run succeeded (an error
/// when the result is missing), else the error it gives, or a generic one.
pub fn run_outcome(resp: WorkflowRunResponse) -> (r: Result<WorkflowRunResult, String>)
    ensures
        resp.success ==> match resp.result {
            Some(res) => r == Ok::<WorkflowRunResult, String>(res),
            None => r matches Err(e) && e@ == "Missing result"@,
        },
        !resp.success ==> (r matches Err(e) && e@ == match resp.error {
            Some(m) => m@,
            None => "Unknown error"@,
        }),
{
    if resp.success {
        match resp.result {
            Some(res) => Ok(res),
            None => Err("Missing result".to_owned()),
        }
    } else {
        match resp.error {
            Some(m) => Err(m),
            None => Err("Unknown error".to_owned()),
        }
    }
}

} // verus!
